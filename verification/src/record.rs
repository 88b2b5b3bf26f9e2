//! Records: the arguments of a command and the value of its result.

use vstd::prelude::*;
use crate::text::{same_text, Text};

verus! {

/// One named text value of a record.
#[derive(Debug, PartialEq, Eq)]
pub struct Field {
    pub name: String,
    pub value: String,
}

impl View for Field {
    type V = (Text, Text);

    open spec fn view(&self) -> (Text, Text) {
        (self.name@, self.value@)
    }
}

impl Clone for Field {
    fn clone(&self) -> (copy: Field)
        ensures
            copy@ == self@,
    {
        Field { name: self.name.clone(), value: self.value.clone() }
    }
}

/// A record as a value: its fields in the order in which they were added, each a name and a
/// text.
pub type RecordView = Seq<(Text, Text)>;

/// The text that a record holds under a name: that of the first field so named, if there is
/// one.
pub open spec fn spec_get(fields: RecordView, name: Text) -> Option<Text>
    decreases fields.len(),
{
    if fields.len() == 0 {
        None
    } else if fields[0].0 == name {
        Some(fields[0].1)
    } else {
        spec_get(fields.drop_first(), name)
    }
}

/// A flat record of named text values.
#[derive(Debug, PartialEq, Eq)]
pub struct Record {
    pub fields: Vec<Field>,
}

impl View for Record {
    type V = RecordView;

    open spec fn view(&self) -> RecordView {
        self.fields@.map_values(|f: Field| f@)
    }
}

impl Clone for Record {
    fn clone(&self) -> (copy: Record)
        ensures
            copy@ == self@,
    {
        let mut fields: Vec<Field> = Vec::new();
        let mut i: usize = 0;
        while i < self.fields.len()
            invariant
                i <= self.fields.len(),
                fields@.len() == i,
                forall|j: int| 0 <= j < i ==> fields@[j]@ == self.fields@[j]@,
            decreases self.fields.len() - i,
        {
            fields.push(self.fields[i].clone());
            i += 1;
        }
        Record { fields }
    }
}

impl Record {
    /// The record without fields.
    pub fn new() -> (record: Record)
        ensures
            record@ == Seq::<(Text, Text)>::empty(),
    {
        Record { fields: Vec::new() }
    }

    /// The record with one more field at its end.
    pub fn with(self, name: &str, value: &str) -> (record: Record)
        ensures
            record@ == self@.push((name@, value@)),
    {
        let mut fields = self.fields;
        fields.push(Field { name: name.to_owned(), value: value.to_owned() });
        Record { fields }
    }

    /// The text held under a name: that of the first field so named.
    pub fn get(&self, name: &str) -> (found: Option<&String>)
        ensures
            match found {
                Some(value) => spec_get(self@, name@) == Some(value@),
                None => spec_get(self@, name@) is None,
            },
    {
        let mut i: usize = 0;
        assert(self@.skip(0) =~= self@);
        while i < self.fields.len()
            invariant
                i <= self.fields.len(),
                spec_get(self@, name@) == spec_get(self@.skip(i as int), name@),
            decreases self.fields.len() - i,
        {
            assert(self@.skip(i as int).drop_first() =~= self@.skip(i + 1));
            if same_text(self.fields[i].name.as_str(), name) {
                return Some(&self.fields[i].value);
            }
            i += 1;
        }
        None
    }

    /// The number of fields.
    pub fn len(&self) -> (n: usize)
        ensures
            n == self@.len(),
    {
        self.fields.len()
    }
}

} // verus!
