//! The command line's decisions: what a command asks for, given what is
//! stored, and how a call ends. The caller reads and writes the store, sends
//! the request, and prints.

use vstd::prelude::*;
use vstd::string::*;
use crate::provider::{
    CallError, CallErrorView, HttpRequest, Provider, RequestView, ending_of, outcome_view, request_for,
};
use crate::json::{Json, json_parse};
use crate::record::{
    ConfigParseError, CredentialRecord, RecordView, GEMINI_KEY_FIELD, GPT_KEY_FIELD, key_for,
    loaded_from, record_of, record_text,
};

verus! {

/// The subcommand that asks the GPT-style provider.
pub const GPT_COMMAND: &'static str = "gpt";

/// The subcommand that asks the Gemini-style provider.
pub const GEMINI_COMMAND: &'static str = "gemini";

/// The subcommand that stores a record.
pub const CONFIG_COMMAND: &'static str = "config";

/// What is printed once the record is stored.
pub const CONFIGURED_NOTICE: &'static str = "API key configured successfully.";

/// What is printed where no subcommand was given.
pub const USAGE_HINT: &'static str =
    "No subcommand provided. Use 'rschat --help' for usage information.";

/// What the user is told where the provider's key is missing.
pub const MISSING_CREDENTIAL_TEXT: &'static str =
    "API key not configured. Run 'rschat config' first.";

/// What the user is told where the stored or given record is no JSON.
pub const NOT_JSON_TEXT: &'static str = "The configuration is not valid JSON.";

/// What the user is told where the stored or given record has another shape.
pub const WRONG_SHAPE_TEXT: &'static str =
    "The configuration is not a JSON object with the two optional keys.";

/// What precedes the transport's own words.
pub const TRANSPORT_PREFIX: &'static str = "The request failed: ";

/// What the user is told where the answer holds no reply.
pub const UNEXPECTED_SHAPE_TEXT: &'static str = "The provider's answer has an unexpected shape.";

/// An invocation, with its one argument.
#[derive(Clone, Debug, PartialEq, Eq)]
pub enum Command {
    /// Ask the GPT-style provider; the argument is the text.
    Gpt(String),
    /// Ask the Gemini-style provider; the argument is the text.
    Gemini(String),
    /// Store a record; the argument is its JSON form.
    Config(String),
    /// No subcommand.
    Empty,
}

/// A command as contracts see it.
pub enum CommandView {
    Gpt(Seq<char>),
    Gemini(Seq<char>),
    Config(Seq<char>),
    Empty,
}

impl View for Command {
    type V = CommandView;

    open spec fn view(&self) -> CommandView {
        match self {
            Command::Gpt(text) => CommandView::Gpt(text@),
            Command::Gemini(text) => CommandView::Gemini(text@),
            Command::Config(json) => CommandView::Config(json@),
            Command::Empty => CommandView::Empty,
        }
    }
}

/// What the caller is to do next.
#[derive(Clone, Debug, PartialEq, Eq)]
pub enum Step {
    /// Send the request, and end the call with what came back.
    Send(Provider, HttpRequest),
    /// Replace whatever is stored by this text, then confirm.
    Store(String),
    /// Print the usage hint.
    Hint,
}

/// A step as contracts see it.
pub enum StepView {
    Send(Provider, RequestView),
    Store(Seq<char>),
    Hint,
}

impl View for Step {
    type V = StepView;

    open spec fn view(&self) -> StepView {
        match self {
            Step::Send(provider, request) => StepView::Send(*provider, request@),
            Step::Store(text) => StepView::Store(text@),
            Step::Hint => StepView::Hint,
        }
    }
}

/// Why an invocation ends without its result.
#[derive(Clone, Debug, PartialEq, Eq)]
pub enum Failure {
    /// The stored record, or the one given to `config`, cannot be read.
    Config(ConfigParseError),
    /// The provider's key is not configured.
    MissingCredential,
    /// The call to the provider gave no reply.
    Call(CallError),
}

/// A failure as contracts see it.
pub enum FailureView {
    Config(ConfigParseError),
    MissingCredential,
    Call(CallErrorView),
}

impl View for Failure {
    type V = FailureView;

    open spec fn view(&self) -> FailureView {
        match self {
            Failure::Config(error) => FailureView::Config(*error),
            Failure::MissingCredential => FailureView::MissingCredential,
            Failure::Call(error) => FailureView::Call(error@),
        }
    }
}

/// The command that a subcommand's name and its argument stand for. No name,
/// or a name that is none of the three, is the bare invocation.
pub open spec fn command_for(name: Option<Seq<char>>, argument: Seq<char>) -> CommandView {
    if name == Some(GPT_COMMAND@) {
        CommandView::Gpt(argument)
    } else if name == Some(GEMINI_COMMAND@) {
        CommandView::Gemini(argument)
    } else if name == Some(CONFIG_COMMAND@) {
        CommandView::Config(argument)
    } else {
        CommandView::Empty
    }
}

/// The command that asks a provider.
pub open spec fn asking(provider: Provider, text: Seq<char>) -> CommandView {
    match provider {
        Provider::Gpt => CommandView::Gpt(text),
        Provider::Gemini => CommandView::Gemini(text),
    }
}

/// What asking a provider comes to, given how loading the record went: an
/// unreadable record and a missing key each end the invocation, before any
/// request exists.
pub open spec fn ask_plan(
    provider: Provider,
    text: Seq<char>,
    loaded: Result<RecordView, ConfigParseError>,
) -> Result<StepView, FailureView> {
    match loaded {
        Ok(record) => match key_for(provider, record) {
            Some(key) => Ok(StepView::Send(provider, request_for(provider, text, key))),
            None => Err(FailureView::MissingCredential),
        },
        Err(error) => Err(FailureView::Config(error)),
    }
}

/// What storing a record comes to: the record that the argument holds is
/// written out whole.
pub open spec fn store_plan(json: Seq<char>) -> Result<StepView, FailureView> {
    match record_of(json) {
        Ok(record) => Ok(StepView::Store(record_text(record))),
        Err(error) => Err(FailureView::Config(error)),
    }
}

/// What a command comes to, given the stored text (`None`: nothing is
/// stored).
pub open spec fn plan_for(command: CommandView, stored: Option<Seq<char>>) -> Result<
    StepView,
    FailureView,
> {
    match command {
        CommandView::Gpt(text) => ask_plan(Provider::Gpt, text, loaded_from(stored)),
        CommandView::Gemini(text) => ask_plan(Provider::Gemini, text, loaded_from(stored)),
        CommandView::Config(json) => store_plan(json),
        CommandView::Empty => Ok(StepView::Hint),
    }
}

/// Whether a planning ended as `expected` says.
pub open spec fn plans_as(outcome: Result<Step, Failure>, expected: Result<StepView, FailureView>) -> bool {
    match outcome {
        Ok(step) => expected == Ok::<StepView, FailureView>(step@),
        Err(failure) => expected == Err::<StepView, FailureView>(failure@),
    }
}

/// The words for a failure.
pub open spec fn failure_text(failure: FailureView) -> Seq<char> {
    match failure {
        FailureView::Config(ConfigParseError::NotJson) => NOT_JSON_TEXT@,
        FailureView::Config(ConfigParseError::WrongShape) => WRONG_SHAPE_TEXT@,
        FailureView::MissingCredential => MISSING_CREDENTIAL_TEXT@,
        FailureView::Call(CallErrorView::Transport(why)) => TRANSPORT_PREFIX@ + why,
        FailureView::Call(CallErrorView::UnexpectedShape) => UNEXPECTED_SHAPE_TEXT@,
    }
}

/// Plans a call to a provider with the record as loaded. Without the
/// provider's key there is no request: the call fails before anything is
/// sent.
pub fn ask(provider: Provider, text: &str, record: &CredentialRecord) -> (outcome: Result<
    HttpRequest,
    Failure,
>)
    ensures
        match outcome {
            Ok(request) => key_for(provider, record@) matches Some(key) && request@ == request_for(
                provider,
                text@,
                key,
            ),
            Err(failure) => failure == Failure::MissingCredential && key_for(provider, record@) is None,
        },
{
    match record.key_of(provider) {
        Some(key) => Ok(provider.request(text, key)),
        None => Err(Failure::MissingCredential),
    }
}

impl Command {
    /// Tells the command from the subcommand's name and its one argument.
    pub fn select(name: Option<&str>, argument: &str) -> (command: Command)
        ensures
            command@ == command_for(name.deep_view(), argument@),
    {
        match name {
            Some(name) => {
                let given = String::from_str(name);
                if given == String::from_str(GPT_COMMAND) {
                    Command::Gpt(String::from_str(argument))
                } else if given == String::from_str(GEMINI_COMMAND) {
                    Command::Gemini(String::from_str(argument))
                } else if given == String::from_str(CONFIG_COMMAND) {
                    Command::Config(String::from_str(argument))
                } else {
                    Command::Empty
                }
            },
            None => Command::Empty,
        }
    }

    /// Whether the command needs the stored record. `config` and the bare
    /// invocation do not look at it.
    pub fn reads_store(&self) -> (yes: bool)
        ensures
            yes == (self@ is Gpt || self@ is Gemini),
    {
        match self {
            Command::Gpt(_) => true,
            Command::Gemini(_) => true,
            Command::Config(_) => false,
            Command::Empty => false,
        }
    }
}

/// Plans an invocation: `stored` is the text of the stored record, `None`
/// where nothing is stored.
pub fn begin(command: &Command, stored: Option<&str>) -> (outcome: Result<Step, Failure>)
    ensures
        plans_as(outcome, plan_for(command@, stored.deep_view())),
{
    match command {
        Command::Gpt(text) => begin_ask(Provider::Gpt, text.as_str(), stored),
        Command::Gemini(text) => begin_ask(Provider::Gemini, text.as_str(), stored),
        Command::Config(json) => match CredentialRecord::parse(json.as_str()) {
            Ok(record) => Ok(Step::Store(record.render())),
            Err(error) => Err(Failure::Config(error)),
        },
        Command::Empty => Ok(Step::Hint),
    }
}

/// Loads the record, then plans the call.
fn begin_ask(provider: Provider, text: &str, stored: Option<&str>) -> (outcome: Result<Step, Failure>)
    ensures
        plans_as(outcome, ask_plan(provider, text@, loaded_from(stored.deep_view()))),
{
    match CredentialRecord::load(stored) {
        Ok(record) => match ask(provider, text, &record) {
            Ok(request) => Ok(Step::Send(provider, request)),
            Err(failure) => Err(failure),
        },
        Err(error) => Err(Failure::Config(error)),
    }
}

/// Ends an invocation's call: `outcome` is the body that came back, or why
/// the request did not get through.
pub fn finish(provider: Provider, outcome: Result<String, String>) -> (ending: Result<String, Failure>)
    ensures
        match ending {
            Ok(reply) => ending_of(provider, outcome_view(outcome)) == Ok::<Seq<char>, CallErrorView>(
                reply@,
            ),
            Err(failure) => failure matches Failure::Call(error) && ending_of(
                provider,
                outcome_view(outcome),
            ) == Err::<Seq<char>, CallErrorView>(error@),
        },
{
    match provider.conclude(outcome) {
        Ok(reply) => Ok(reply),
        Err(error) => Err(Failure::Call(error)),
    }
}

impl Failure {
    /// The words for this failure.
    pub fn message(&self) -> (text: String)
        ensures
            text@ == failure_text(self@),
    {
        match self {
            Failure::Config(ConfigParseError::NotJson) => String::from_str(NOT_JSON_TEXT),
            Failure::Config(ConfigParseError::WrongShape) => String::from_str(WRONG_SHAPE_TEXT),
            Failure::MissingCredential => String::from_str(MISSING_CREDENTIAL_TEXT),
            Failure::Call(CallError::Transport(why)) => String::from_str(TRANSPORT_PREFIX).concat(
                why.as_str(),
            ),
            Failure::Call(CallError::UnexpectedShape) => String::from_str(UNEXPECTED_SHAPE_TEXT),
        }
    }
}

/// Asking a provider whose key the stored record lacks fails as a missing
/// credential: no request is planned, so none is sent.
pub proof fn lemma_no_key_no_request(provider: Provider, text: Seq<char>, stored: Option<Seq<char>>)
    requires
        loaded_from(stored) matches Ok(record) && key_for(provider, record) is None,
    ensures
        plan_for(asking(provider, text), stored) == Err::<StepView, FailureView>(
            FailureView::MissingCredential,
        ),
{
}

/// With nothing stored, asking either provider fails as a missing credential.
pub proof fn lemma_nothing_stored_no_request(provider: Provider, text: Seq<char>)
    ensures
        plan_for(asking(provider, text), None) == Err::<StepView, FailureView>(
            FailureView::MissingCredential,
        ),
{
}

/// `config` overwrites and does not merge: what it stores is the same
/// whatever was stored before.
pub proof fn lemma_config_replaces_store(
    json: Seq<char>,
    before: Option<Seq<char>>,
    other: Option<Seq<char>>,
)
    ensures
        plan_for(CommandView::Config(json), before) == plan_for(CommandView::Config(json), other),
{
}

/// A record given to `config` with the GPT key alone is stored without a
/// Gemini key, also where one was stored before.
pub proof fn lemma_config_with_one_key_clears_other(
    json: Seq<char>,
    members: Map<Seq<char>, Json>,
    key: Seq<char>,
    before: Option<Seq<char>>,
)
    requires
        json_parse(json) == Some(Json::Object(members)),
        members.contains_key(GPT_KEY_FIELD@),
        members[GPT_KEY_FIELD@] == Json::Text(key),
        !members.contains_key(GEMINI_KEY_FIELD@),
    ensures
        plan_for(CommandView::Config(json), before) == Ok::<StepView, FailureView>(
            StepView::Store(record_text(RecordView { gpt_api_key: Some(key), gemini_api_key: None })),
        ),
{
}

} // verus!
