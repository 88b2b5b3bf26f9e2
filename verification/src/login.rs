//! The login form and the flow that takes it from submission to an outcome.

use vstd::prelude::*;
use crate::command::{Command, CommandResult, CommandResultView, CommandView};
use crate::error::ErrorKind;
use crate::invoke::{spec_accepts, spec_login_rules};
use crate::record::{spec_get, Record};
use crate::text::Text;

verus! {

/// What the login form holds: the two inputs, and the line that reports how the last login
/// went.
#[derive(Debug, PartialEq, Eq)]
pub struct FormState {
    pub mail: String,
    pub pass: String,
    pub message: String,
}

/// A form as a value.
pub struct FormView {
    pub mail: Text,
    pub pass: Text,
    pub message: Text,
}

impl View for FormState {
    type V = FormView;

    open spec fn view(&self) -> FormView {
        FormView { mail: self.mail@, pass: self.pass@, message: self.message@ }
    }
}

/// Where a login stands.
#[derive(Clone, Copy, Debug, PartialEq, Eq, Structural)]
pub enum LoginState {
    /// Nothing was submitted yet, or the form was reset.
    Idle,
    /// The form was submitted and its inputs are about to be checked.
    Validating,
    /// The login command is with the host; its result has not come back.
    Pending,
    /// The last login succeeded.
    Success,
    /// The last login failed, in this way.
    Failed(ErrorKind),
}

/// A flow as a value: its state and its form.
pub struct FlowView {
    pub state: LoginState,
    pub form: FormView,
}

/// Something that happens to a flow.
pub enum FlowInput {
    /// The user changed the mail address.
    SetMail(Text),
    /// The user changed the password.
    SetPass(Text),
    /// The user submitted the form.
    Submit,
    /// The inputs of a submitted form are checked.
    Validate,
    /// The result of the login command came back.
    Resolve(CommandResultView),
    /// The login screen was left.
    Reset,
}

/// The flow before anything happened: idle, with an empty form.
pub open spec fn spec_initial() -> FlowView {
    FlowView {
        state: LoginState::Idle,
        form: FormView { mail: Seq::empty(), pass: Seq::empty(), message: Seq::empty() },
    }
}

/// Whether a submission is taken up in a state. One that comes while another is being
/// validated or is pending is turned away.
pub open spec fn spec_admits(state: LoginState) -> bool {
    state != LoginState::Validating && state != LoginState::Pending
}

/// Whether both inputs of a form are filled in.
pub open spec fn spec_complete_form(form: FormView) -> bool {
    form.mail.len() > 0 && form.pass.len() > 0
}

/// The login command for a mail address and a password.
pub open spec fn spec_login_command(mail: Text, pass: Text) -> CommandView {
    CommandView { name: "login"@, args: seq![("mail"@, mail), ("pass"@, pass)] }
}

/// The command that checking the inputs issues: the login command, if the flow is validating
/// and both inputs are filled in; none otherwise.
pub open spec fn spec_issue(flow: FlowView) -> Option<CommandView> {
    if flow.state == LoginState::Validating && spec_complete_form(flow.form) {
        Some(spec_login_command(flow.form.mail, flow.form.pass))
    } else {
        None
    }
}

/// The line that reports a result: the `message` of a value (empty if it has none), or the
/// fixed text of the failure's kind.
pub open spec fn spec_report(result: CommandResultView) -> Text {
    match result {
        CommandResultView::Value(record) => match spec_get(record, "message"@) {
            Some(message) => message,
            None => Seq::empty(),
        },
        CommandResultView::Error(kind) => kind.spec_message(),
    }
}

/// The state in which a result leaves a pending login.
pub open spec fn spec_outcome(result: CommandResultView) -> LoginState {
    match result {
        CommandResultView::Value(_) => LoginState::Success,
        CommandResultView::Error(kind) => LoginState::Failed(kind),
    }
}

/// The flow after one input.
pub open spec fn spec_step(flow: FlowView, input: FlowInput) -> FlowView {
    match input {
        FlowInput::SetMail(mail) => FlowView { form: FormView { mail, ..flow.form }, ..flow },
        FlowInput::SetPass(pass) => FlowView { form: FormView { pass, ..flow.form }, ..flow },
        FlowInput::Submit => if spec_admits(flow.state) {
            FlowView { state: LoginState::Validating, ..flow }
        } else {
            flow
        },
        FlowInput::Validate => if flow.state != LoginState::Validating {
            flow
        } else if spec_complete_form(flow.form) {
            FlowView { state: LoginState::Pending, ..flow }
        } else {
            FlowView {
                state: LoginState::Failed(ErrorKind::InvalidInput),
                form: FormView {
                    message: ErrorKind::InvalidInput.spec_message(),
                    ..flow.form
                },
            }
        },
        FlowInput::Resolve(result) => if flow.state == LoginState::Pending {
            FlowView {
                state: spec_outcome(result),
                form: FormView { message: spec_report(result), ..flow.form },
            }
        } else {
            flow
        },
        FlowInput::Reset => FlowView {
            state: if flow.state == LoginState::Pending {
                LoginState::Pending
            } else {
                LoginState::Idle
            },
            form: spec_initial().form,
        },
    }
}

/// The login flow: `Idle → Validating → Pending → {Success, Failed}`, and from an outcome
/// back to `Validating` with the next submission.
#[derive(Debug, PartialEq, Eq)]
pub struct LoginFlow {
    state: LoginState,
    form: FormState,
}

impl View for LoginFlow {
    type V = FlowView;

    closed spec fn view(&self) -> FlowView {
        FlowView { state: self.state, form: self.form@ }
    }
}

impl LoginFlow {
    /// An idle flow with an empty form.
    pub fn new() -> (flow: LoginFlow)
        ensures
            flow@ == spec_initial(),
    {
        LoginFlow {
            state: LoginState::Idle,
            form: FormState { mail: String::new(), pass: String::new(), message: String::new() },
        }
    }

    /// Where the login stands.
    pub fn state(&self) -> (state: LoginState)
        ensures
            state == self@.state,
    {
        self.state
    }

    /// Whether a submission would be taken up now.
    pub fn admits(&self) -> (admits: bool)
        ensures
            admits == spec_admits(self@.state),
    {
        match self.state {
            LoginState::Validating | LoginState::Pending => false,
            _ => true,
        }
    }

    /// The form.
    pub fn form(&self) -> (form: &FormState)
        ensures
            form@ == self@.form,
    {
        &self.form
    }

    /// Takes a new mail address from the user.
    pub fn set_mail(&mut self, mail: String)
        ensures
            final(self)@ == spec_step(old(self)@, FlowInput::SetMail(mail@)),
    {
        self.form.mail = mail;
    }

    /// Takes a new password from the user.
    pub fn set_pass(&mut self, pass: String)
        ensures
            final(self)@ == spec_step(old(self)@, FlowInput::SetPass(pass@)),
    {
        self.form.pass = pass;
    }

    /// The form was submitted. The submission is turned away, and nothing changes, while an
    /// earlier one is being validated or is pending; otherwise the flow goes on to
    /// validation.
    pub fn submit(&mut self) -> (accepted: bool)
        ensures
            accepted == spec_admits(old(self)@.state),
            final(self)@ == spec_step(old(self)@, FlowInput::Submit),
    {
        match self.state {
            LoginState::Validating | LoginState::Pending => false,
            _ => {
                self.state = LoginState::Validating;
                true
            },
        }
    }

    /// Checks the inputs of a submitted form. With both filled in, the login becomes pending
    /// and its command is returned, to be invoked; with one empty, the login has failed with
    /// `InvalidInput` and no command is issued. In any state but `Validating` nothing happens.
    pub fn validate(&mut self) -> (issued: Option<Command>)
        ensures
            final(self)@ == spec_step(old(self)@, FlowInput::Validate),
            match issued {
                Some(command) => spec_issue(old(self)@) == Some(command@),
                None => spec_issue(old(self)@) is None,
            },
    {
        match self.state {
            LoginState::Validating => {},
            _ => {
                return None;
            },
        }
        if self.form.mail.as_str().is_empty() || self.form.pass.as_str().is_empty() {
            self.state = LoginState::Failed(ErrorKind::InvalidInput);
            self.form.message = ErrorKind::InvalidInput.message().to_owned();
            None
        } else {
            self.state = LoginState::Pending;
            let args = Record::new().with("mail", self.form.mail.as_str()).with(
                "pass",
                self.form.pass.as_str(),
            );
            let command = Command { name: "login".to_owned(), args };
            assert(command@.args =~= spec_login_command(self.form.mail@, self.form.pass@).args);
            Some(command)
        }
    }

    /// The result of the pending login came back: the flow ends in `Success` or in `Failed`,
    /// and the form's message reports the result. A result that comes while no login is
    /// pending is turned away, and nothing changes.
    pub fn resolve(&mut self, result: CommandResult) -> (accepted: bool)
        ensures
            accepted == (old(self)@.state == LoginState::Pending),
            final(self)@ == spec_step(old(self)@, FlowInput::Resolve(result@)),
    {
        match self.state {
            LoginState::Pending => {},
            _ => {
                return false;
            },
        }
        match result {
            CommandResult::Value(record) => {
                self.state = LoginState::Success;
                self.form.message = match record.get("message") {
                    Some(message) => message.clone(),
                    None => String::new(),
                };
            },
            CommandResult::Error(kind) => {
                self.state = LoginState::Failed(kind);
                self.form.message = kind.message().to_owned();
            },
        }
        true
    }

    /// The login screen was left: the form is emptied. A pending login stays pending, for
    /// its result is still to come; any other state goes back to `Idle`.
    pub fn reset(&mut self)
        ensures
            final(self)@ == spec_step(old(self)@, FlowInput::Reset),
    {
        self.form = FormState { mail: String::new(), pass: String::new(), message: String::new() };
        match self.state {
            LoginState::Pending => {},
            _ => {
                self.state = LoginState::Idle;
            },
        }
    }
}

/// The flow after a sequence of inputs, taken in order.
pub open spec fn spec_run(flow: FlowView, inputs: Seq<FlowInput>) -> FlowView
    decreases inputs.len(),
{
    if inputs.len() == 0 {
        flow
    } else {
        spec_step(spec_run(flow, inputs.drop_last()), inputs.last())
    }
}

/// How many login commands are issued while a sequence of inputs is taken.
pub open spec fn spec_issued(flow: FlowView, inputs: Seq<FlowInput>) -> nat
    decreases inputs.len(),
{
    if inputs.len() == 0 {
        0
    } else {
        let before = spec_run(flow, inputs.drop_last());
        let now: nat = if inputs.last() is Validate && spec_issue(before) is Some {
            1
        } else {
            0
        };
        spec_issued(flow, inputs.drop_last()) + now
    }
}

/// How many results are taken up while a sequence of inputs is taken.
pub open spec fn spec_resolved(flow: FlowView, inputs: Seq<FlowInput>) -> nat
    decreases inputs.len(),
{
    if inputs.len() == 0 {
        0
    } else {
        let before = spec_run(flow, inputs.drop_last());
        let now: nat = if inputs.last() is Resolve && before.state == LoginState::Pending {
            1
        } else {
            0
        };
        spec_resolved(flow, inputs.drop_last()) + now
    }
}

/// How many login commands a flow has with the host: one while it is pending, none otherwise.
pub open spec fn spec_in_flight(flow: FlowView) -> nat {
    if flow.state == LoginState::Pending {
        1
    } else {
        0
    }
}

/// No two logins are pending at once. Whatever the inputs and their order, the commands
/// issued and not yet resolved are as many as the flow has in flight at the end, which is one
/// or none; and a command is issued only by a flow that has none in flight.
pub proof fn lemma_single_flight(flow: FlowView, inputs: Seq<FlowInput>)
    ensures
        spec_in_flight(flow) + spec_issued(flow, inputs) == spec_resolved(flow, inputs)
            + spec_in_flight(spec_run(flow, inputs)),
        spec_in_flight(spec_run(flow, inputs)) <= 1,
        spec_issue(flow) is Some ==> spec_in_flight(flow) == 0,
    decreases inputs.len(),
{
    if inputs.len() > 0 {
        lemma_single_flight(flow, inputs.drop_last());
    }
}

/// Every cycle ends in exactly one outcome. From a state that admits a submission, submitting
/// and validating either issues the login command and leaves the login pending, after which
/// any result ends it in `Success` (a value) or in `Failed` (an error), with the message that
/// reports the result; or, with an input empty, ends it in `Failed(InvalidInput)` with no
/// command issued, after which a result changes nothing.
pub proof fn lemma_cycle_ends(flow: FlowView, result: CommandResultView)
    requires
        spec_admits(flow.state),
    ensures
        ({
            let submitted = spec_step(flow, FlowInput::Submit);
            let checked = spec_step(submitted, FlowInput::Validate);
            let end = spec_step(checked, FlowInput::Resolve(result));
            if spec_complete_form(flow.form) {
                &&& spec_issue(submitted) == Some(
                    spec_login_command(flow.form.mail, flow.form.pass),
                )
                &&& checked.state == LoginState::Pending
                &&& end.state == spec_outcome(result)
                &&& end.state == LoginState::Success <==> result is Value
                &&& end.state is Failed <==> result is Error
                &&& end.form.message == spec_report(result)
            } else {
                &&& spec_issue(submitted) is None
                &&& checked.state == LoginState::Failed(ErrorKind::InvalidInput)
                &&& checked.form.message == ErrorKind::InvalidInput.spec_message()
                &&& end == checked
            }
        }),
{
}

/// A failure is always reported. In every flow that a sequence of inputs leads to from the
/// start, a failed login shows the fixed message of its kind.
pub proof fn lemma_failure_is_reported(inputs: Seq<FlowInput>)
    ensures
        spec_run(spec_initial(), inputs).state matches LoginState::Failed(kind) ==> spec_run(
            spec_initial(),
            inputs,
        ).form.message == kind.spec_message(),
    decreases inputs.len(),
{
    if inputs.len() > 0 {
        lemma_failure_is_reported(inputs.drop_last());
    }
}

/// What the rules of the login command ask: the standard client accepts the login command
/// for a mail address and a password exactly where neither is empty.
pub proof fn lemma_login_needs_mail_and_pass(mail: Text, pass: Text)
    ensures
        spec_accepts(spec_login_rules(), spec_login_command(mail, pass)) <==> mail.len() > 0
            && pass.len() > 0,
{
    // The first field is `mail`; `pass`, which is another name, is the second.
    let args = spec_login_command(mail, pass).args;
    reveal_strlit("mail");
    reveal_strlit("pass");
    assert("mail"@[0] != "pass"@[0]);
    reveal_with_fuel(spec_get, 3);
    assert(args.drop_first() =~= seq![("pass"@, pass)]);
    assert(spec_get(args, "mail"@) == Some(mail));
    assert(spec_get(args, "pass"@) == Some(pass));
    assert(spec_login_rules()[0] == ("login"@, "mail"@));
    assert(spec_login_rules()[1] == ("login"@, "pass"@));
}

/// The command that the flow issues passes the validation of the standard client: a login
/// that became pending is never answered with `InvalidInput` before it reaches the transport.
pub proof fn lemma_issued_command_is_accepted(flow: FlowView)
    ensures
        spec_issue(flow) matches Some(command) ==> spec_accepts(spec_login_rules(), command),
{
    lemma_login_needs_mail_and_pass(flow.form.mail, flow.form.pass);
}

/// The line that the form shows after a sequence of inputs from the start: the report of the
/// login that ended last, be it by a result or by an empty input; nothing if none has ended
/// since the form was last reset.
pub open spec fn spec_last_report(inputs: Seq<FlowInput>) -> Text
    decreases inputs.len(),
{
    if inputs.len() == 0 {
        Seq::empty()
    } else {
        let before = spec_run(spec_initial(), inputs.drop_last());
        match inputs.last() {
            FlowInput::Resolve(result) if before.state == LoginState::Pending => spec_report(
                result,
            ),
            FlowInput::Validate if before.state == LoginState::Validating
                && !spec_complete_form(before.form) => ErrorKind::InvalidInput.spec_message(),
            FlowInput::Reset => Seq::empty(),
            _ => spec_last_report(inputs.drop_last()),
        }
    }
}

/// The form's message always reports the login that ended last.
pub proof fn lemma_message_reports_last_outcome(inputs: Seq<FlowInput>)
    ensures
        spec_run(spec_initial(), inputs).form.message == spec_last_report(inputs),
    decreases inputs.len(),
{
    if inputs.len() > 0 {
        lemma_message_reports_last_outcome(inputs.drop_last());
    }
}

/// A pending login waits for its result: nothing but a result ends it, not even a reset.
pub proof fn lemma_pending_waits(flow: FlowView, input: FlowInput)
    requires
        flow.state == LoginState::Pending,
        !(input is Resolve),
    ensures
        spec_step(flow, input).state == LoginState::Pending,
        spec_issue(spec_step(flow, input)) is None,
{
}

} // verus!
