//! The interface as one state machine: messages in, state and effects out.

use vstd::prelude::*;
use crate::command::{Command, CommandView};
use crate::error::ErrorKind;
use crate::event::{Event, EventView};
use crate::invoke::{
    spec_begin, spec_complete, spec_login_rules, InvokeClient, InvokeStep, InvokeStepView,
    TransportOutcome, TransportOutcomeView,
};
use crate::login::{
    lemma_issued_command_is_accepted, spec_admits, spec_complete_form, spec_in_flight,
    spec_initial, spec_issue, spec_login_command, spec_step, FlowInput, FlowView, LoginFlow,
    LoginState,
};
use crate::navigation::{
    spec_navigate, spec_start, Navigation, NavigationController, Screen,
};
use crate::text::Text;

verus! {

/// A message to the interface.
#[derive(Debug, PartialEq, Eq)]
pub enum Msg {
    /// The user changed the mail address.
    MailChanged(String),
    /// The user changed the password.
    PassChanged(String),
    /// The user clicked the login button.
    LoginButtonClicked,
    /// The transport is done with the command that a click issued.
    Transported(TransportOutcome),
    /// The host pushed an event.
    Pushed(Event),
}

/// A message as a value.
pub enum MsgView {
    MailChanged(Text),
    PassChanged(Text),
    LoginButtonClicked,
    Transported(TransportOutcomeView),
    Pushed(EventView),
}

impl View for Msg {
    type V = MsgView;

    open spec fn view(&self) -> MsgView {
        match self {
            Msg::MailChanged(mail) => MsgView::MailChanged(mail@),
            Msg::PassChanged(pass) => MsgView::PassChanged(pass@),
            Msg::LoginButtonClicked => MsgView::LoginButtonClicked,
            Msg::Transported(outcome) => MsgView::Transported(outcome@),
            Msg::Pushed(event) => MsgView::Pushed(event@),
        }
    }
}

/// What the caller of [`App::update`] has to do after a message.
#[derive(Debug, PartialEq, Eq)]
pub struct Update {
    /// Whether what the interface shows may have changed.
    pub render: bool,
    /// The command to hand to the transport, whose outcome comes back as
    /// [`Msg::Transported`].
    pub invoke: Option<Command>,
    /// What a pushed event did to navigation. An unknown target is to be logged.
    pub navigation: Option<Navigation>,
}

/// An update as a value.
pub struct UpdateView {
    pub render: bool,
    pub invoke: Option<CommandView>,
    pub navigation: Option<Navigation>,
}

impl View for Update {
    type V = UpdateView;

    open spec fn view(&self) -> UpdateView {
        UpdateView {
            render: self.render,
            invoke: match self.invoke {
                Some(command) => Some(command@),
                None => None,
            },
            navigation: self.navigation,
        }
    }
}

/// What the interface shows.
#[derive(Debug, PartialEq, Eq)]
pub struct Scene {
    /// The screen to draw.
    pub screen: Screen,
    /// What the mail input holds.
    pub mail: String,
    /// What the password input holds.
    pub pass: String,
    /// The line that reports how the last login went.
    pub message: String,
    /// Whether the login button is disabled, because a click would be turned away.
    pub busy: bool,
}

/// A scene as a value.
pub struct SceneView {
    pub screen: Screen,
    pub mail: Text,
    pub pass: Text,
    pub message: Text,
    pub busy: bool,
}

impl View for Scene {
    type V = SceneView;

    open spec fn view(&self) -> SceneView {
        SceneView {
            screen: self.screen,
            mail: self.mail@,
            pass: self.pass@,
            message: self.message@,
            busy: self.busy,
        }
    }
}

/// The interface as a value: the login flow, the current screen, and the rules by which
/// commands are validated.
pub struct AppView {
    pub flow: FlowView,
    pub screen: Screen,
    pub rules: Seq<(Text, Text)>,
}

/// The interface when it starts: an idle login on the login screen.
pub open spec fn spec_create() -> AppView {
    AppView { flow: spec_initial(), screen: spec_start(), rules: spec_login_rules() }
}

/// What an interface shows: its screen, its form, and a login button that is disabled while
/// a click would be turned away.
pub open spec fn spec_scene(app: AppView) -> SceneView {
    SceneView {
        screen: app.screen,
        mail: app.flow.form.mail,
        pass: app.flow.form.pass,
        message: app.flow.form.message,
        busy: !spec_admits(app.flow.state),
    }
}

/// The update that asks for nothing.
pub open spec fn spec_quiet() -> UpdateView {
    UpdateView { render: false, invoke: None, navigation: None }
}

/// A click on the login button. While a login is pending the click is turned away. Otherwise
/// the form is submitted and validated, and its command, if one is issued, goes through the
/// client's own validation to the transport.
pub open spec fn spec_click(app: AppView) -> (AppView, UpdateView) {
    if !spec_admits(app.flow.state) {
        (app, spec_quiet())
    } else {
        let submitted = spec_step(app.flow, FlowInput::Submit);
        let checked = spec_step(submitted, FlowInput::Validate);
        match spec_issue(submitted) {
            None => (
                AppView { flow: checked, ..app },
                UpdateView { render: true, ..spec_quiet() },
            ),
            Some(command) => match spec_begin(app.rules, command) {
                InvokeStepView::Transmit(command) => (
                    AppView { flow: checked, ..app },
                    UpdateView { render: true, invoke: Some(command), navigation: None },
                ),
                InvokeStepView::Finished(result) => (
                    AppView { flow: spec_step(checked, FlowInput::Resolve(result)), ..app },
                    UpdateView { render: true, ..spec_quiet() },
                ),
            },
        }
    }
}

/// An event from the host. It goes to navigation; the form is reset when the login screen is
/// left.
pub open spec fn spec_push(app: AppView, event: EventView) -> (AppView, UpdateView) {
    let (screen, report) = spec_navigate(app.screen, event);
    let flow = if app.screen == Screen::Login && screen != Screen::Login {
        spec_step(app.flow, FlowInput::Reset)
    } else {
        app.flow
    };
    (
        AppView { flow, screen, ..app },
        UpdateView { render: report is Arrived, invoke: None, navigation: Some(report) },
    )
}

/// The interface after a message, and what the caller has to do.
pub open spec fn spec_update(app: AppView, msg: MsgView) -> (AppView, UpdateView) {
    match msg {
        MsgView::MailChanged(mail) => (
            AppView { flow: spec_step(app.flow, FlowInput::SetMail(mail)), ..app },
            spec_quiet(),
        ),
        MsgView::PassChanged(pass) => (
            AppView { flow: spec_step(app.flow, FlowInput::SetPass(pass)), ..app },
            spec_quiet(),
        ),
        MsgView::LoginButtonClicked => spec_click(app),
        MsgView::Transported(outcome) => (
            AppView {
                flow: spec_step(app.flow, FlowInput::Resolve(spec_complete(outcome))),
                ..app
            },
            UpdateView { render: app.flow.state == LoginState::Pending, ..spec_quiet() },
        ),
        MsgView::Pushed(event) => spec_push(app, event),
    }
}

/// The interface: a login flow, a navigation controller and the client through which the
/// login command goes out.
#[derive(Debug, PartialEq, Eq)]
pub struct App {
    flow: LoginFlow,
    navigation: NavigationController,
    client: InvokeClient,
}

impl View for App {
    type V = AppView;

    closed spec fn view(&self) -> AppView {
        AppView { flow: self.flow@, screen: self.navigation@, rules: self.client@ }
    }
}

impl App {
    /// The interface as it starts.
    pub fn create() -> (app: App)
        ensures
            app@ == spec_create(),
    {
        App {
            flow: LoginFlow::new(),
            navigation: NavigationController::new(),
            client: InvokeClient::standard(),
        }
    }

    /// The login flow and its form.
    pub fn flow(&self) -> (flow: &LoginFlow)
        ensures
            flow@ == self@.flow,
    {
        &self.flow
    }

    /// The current screen.
    pub fn screen(&self) -> (screen: Screen)
        ensures
            screen == self@.screen,
    {
        self.navigation.current()
    }

    /// What there is to draw.
    pub fn scene(&self) -> (scene: Scene)
        ensures
            scene@ == spec_scene(self@),
    {
        let form = self.flow.form();
        Scene {
            screen: self.navigation.current(),
            mail: form.mail.clone(),
            pass: form.pass.clone(),
            message: form.message.clone(),
            busy: !self.flow.admits(),
        }
    }

    /// Takes one message and says what is to be done about it.
    pub fn update(&mut self, msg: Msg) -> (update: Update)
        ensures
            (final(self)@, update@) == spec_update(old(self)@, msg@),
    {
        match msg {
            Msg::MailChanged(mail) => {
                self.flow.set_mail(mail);
                Update { render: false, invoke: None, navigation: None }
            },
            Msg::PassChanged(pass) => {
                self.flow.set_pass(pass);
                Update { render: false, invoke: None, navigation: None }
            },
            Msg::LoginButtonClicked => self.click(),
            Msg::Transported(outcome) => {
                let result = InvokeClient::complete(outcome);
                let render = self.flow.resolve(result);
                Update { render, invoke: None, navigation: None }
            },
            Msg::Pushed(event) => {
                let before = self.navigation.current();
                let report = self.navigation.handle(&event);
                let left_login = match (before, self.navigation.current()) {
                    (Screen::Login, Screen::Login) => false,
                    (Screen::Login, _) => true,
                    _ => false,
                };
                if left_login {
                    self.flow.reset();
                }
                let render = match report {
                    Navigation::Arrived(_) => true,
                    _ => false,
                };
                Update { render, invoke: None, navigation: Some(report) }
            },
        }
    }

    fn click(&mut self) -> (update: Update)
        ensures
            (final(self)@, update@) == spec_click(old(self)@),
    {
        if !self.flow.submit() {
            return Update { render: false, invoke: None, navigation: None };
        }
        let invoke = match self.flow.validate() {
            None => None,
            Some(command) => match self.client.begin(command) {
                InvokeStep::Transmit(command) => Some(command),
                InvokeStep::Finished(result) => {
                    self.flow.resolve(result);
                    None
                },
            },
        };
        Update { render: true, invoke, navigation: None }
    }
}

/// The interface after a sequence of messages, taken in order.
pub open spec fn spec_run(app: AppView, msgs: Seq<MsgView>) -> AppView
    decreases msgs.len(),
{
    if msgs.len() == 0 {
        app
    } else {
        spec_update(spec_run(app, msgs.drop_last()), msgs.last()).0
    }
}

/// How many commands the caller is asked to invoke while a sequence of messages is taken.
pub open spec fn spec_invoked(app: AppView, msgs: Seq<MsgView>) -> nat
    decreases msgs.len(),
{
    if msgs.len() == 0 {
        0
    } else {
        let before = spec_run(app, msgs.drop_last());
        let now: nat = if spec_update(before, msgs.last()).1.invoke is Some {
            1
        } else {
            0
        };
        spec_invoked(app, msgs.drop_last()) + now
    }
}

/// How many outcomes of the transport are taken up while a sequence of messages is taken.
pub open spec fn spec_completed(app: AppView, msgs: Seq<MsgView>) -> nat
    decreases msgs.len(),
{
    if msgs.len() == 0 {
        0
    } else {
        let before = spec_run(app, msgs.drop_last());
        let now: nat = if msgs.last() is Transported && before.flow.state
            == LoginState::Pending {
            1
        } else {
            0
        };
        spec_completed(app, msgs.drop_last()) + now
    }
}

/// One command at a time. Whatever the messages and their order, the commands that the
/// caller was asked to invoke and whose outcome was not yet taken up are as many as the
/// login has in flight, which is one or none.
pub proof fn lemma_one_command_at_a_time(app: AppView, msgs: Seq<MsgView>)
    ensures
        spec_in_flight(app.flow) + spec_invoked(app, msgs) == spec_completed(app, msgs)
            + spec_in_flight(spec_run(app, msgs).flow),
        spec_in_flight(spec_run(app, msgs).flow) <= 1,
    decreases msgs.len(),
{
    if msgs.len() > 0 {
        lemma_one_command_at_a_time(app, msgs.drop_last());
    }
}

/// A click while a login is pending changes nothing and asks for nothing.
pub proof fn lemma_click_while_pending(app: AppView)
    requires
        app.flow.state == LoginState::Pending,
    ensures
        spec_update(app, MsgView::LoginButtonClicked) == (app, spec_quiet()),
{
}

/// With the rules of the login command, a click on a form that is filled in, in a state that
/// admits it, asks for exactly the login command and leaves the login pending; on a form
/// with an empty input it asks for nothing and the login has failed with `InvalidInput`.
pub proof fn lemma_click_issues_login(app: AppView)
    requires
        app.rules == spec_login_rules(),
        spec_admits(app.flow.state),
    ensures
        ({
            let (after, update) = spec_update(app, MsgView::LoginButtonClicked);
            if spec_complete_form(app.flow.form) {
                &&& update.invoke == Some(
                    spec_login_command(app.flow.form.mail, app.flow.form.pass),
                )
                &&& after.flow.state == LoginState::Pending
                &&& after.flow.form == app.flow.form
            } else {
                &&& update.invoke is None
                &&& after.flow.state == LoginState::Failed(ErrorKind::InvalidInput)
                &&& after.flow.form.message == ErrorKind::InvalidInput.spec_message()
            }
        }),
{
    let submitted = spec_step(app.flow, FlowInput::Submit);
    lemma_issued_command_is_accepted(submitted);
}

/// An event from the host moves the screen and nothing else, but that leaving the login
/// screen empties the form: the login's state stays, unless it goes back to `Idle` with the
/// form, and no command is asked for.
pub proof fn lemma_push_only_navigates(app: AppView, event: EventView)
    ensures
        ({
            let (after, update) = spec_update(app, MsgView::Pushed(event));
            &&& (after.screen, update.navigation.unwrap()) == spec_navigate(app.screen, event)
            &&& update.invoke is None
            &&& after.rules == app.rules
            &&& after.screen == app.screen ==> after.flow == app.flow
            &&& after.flow.state == app.flow.state || after.flow.state == LoginState::Idle
        }),
{
}

} // verus!
