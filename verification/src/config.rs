//! Where the pipeline's configuration comes from, and how the service fails to start.
use vstd::prelude::*;
use vstd::string::*;

use crate::text::decimal_text;

verus! {

use crate::reply::text_view;
use crate::text::decimal;

/// What is to be done for the pipeline's configuration.
pub enum ConfigStep {
    /// Run on pure defaults.
    Defaults,
    /// Read the file at this path.
    Read(String),
    /// Parse this text, which stood at this path; missing fields fall back to defaults.
    Parse(String, String),
    /// Give up: what failed, and why.
    Fail(String, String),
}

/// The contents of a [`ConfigStep`].
pub enum ConfigStepView {
    Defaults,
    Read(Seq<char>),
    Parse(Seq<char>, Seq<char>),
    Fail(Seq<char>, Seq<char>),
}

impl View for ConfigStep {
    type V = ConfigStepView;

    open spec fn view(&self) -> ConfigStepView {
        match self {
            ConfigStep::Defaults => ConfigStepView::Defaults,
            ConfigStep::Read(path) => ConfigStepView::Read(path@),
            ConfigStep::Parse(path, text) => ConfigStepView::Parse(path@, text@),
            ConfigStep::Fail(context, cause) => ConfigStepView::Fail(context@, cause@),
        }
    }
}

/// How the configuration is come by: without a path it is the default one, with a path it is in
/// the file there.
pub open spec fn config_start(path: Option<Seq<char>>) -> ConfigStepView {
    match path {
        None => ConfigStepView::Defaults,
        Some(path) => ConfigStepView::Read(path),
    }
}

/// How the configuration at `path` goes on once the file was read, or not.
pub open spec fn config_next(path: Seq<char>, file: Result<Seq<char>, Seq<char>>) -> ConfigStepView {
    match file {
        Ok(text) => ConfigStepView::Parse(path, text),
        Err(cause) => ConfigStepView::Fail("failed to read "@ + path, cause),
    }
}

/// How a file that does not parse is reported.
pub open spec fn unparsed(path: Seq<char>, cause: Seq<char>) -> ConfigStepView {
    ConfigStepView::Fail("failed to parse "@ + path, cause)
}

/// The contents of a text or a reason.
pub open spec fn file_text(r: Result<String, String>) -> Result<Seq<char>, Seq<char>> {
    match r {
        Ok(text) => Ok(text@),
        Err(cause) => Err(cause@),
    }
}

/// Starts from the path of a TOML file, where one was given. The configuration is read once; a
/// change takes a restart.
pub fn pipeline_config(path: Option<String>) -> (r: ConfigStep)
    ensures
        r@ == config_start(text_view(path)),
{
    match path {
        None => ConfigStep::Defaults,
        Some(path) => ConfigStep::Read(path),
    }
}

/// Goes on with what was read at `path`.
pub fn config_read(path: String, file: Result<String, String>) -> (r: ConfigStep)
    ensures
        r@ == config_next(path@, file_text(file)),
{
    match file {
        Ok(text) => ConfigStep::Parse(path, text),
        Err(cause) => ConfigStep::Fail("failed to read ".to_owned().concat(path.as_str()), cause),
    }
}

/// Gives up on what stood at `path`.
pub fn config_unparsed(path: String, cause: String) -> (r: ConfigStep)
    ensures
        r@ == unparsed(path@, cause@),
{
    ConfigStep::Fail("failed to parse ".to_owned().concat(path.as_str()), cause)
}

/// Says that an address cannot be listened on.
pub fn bind_failure(bind: &str, port: u16) -> (r: String)
    ensures
        r@ == "failed to bind "@ + bind@ + ":"@ + decimal(port as nat),
{
    "failed to bind ".to_owned().concat(bind).concat(":").concat(
        decimal_text(port as u64).as_str(),
    )
}

/// Without a path the service runs on defaults. With one, the file there is read and its text
/// parsed, and a failure of either names the path and hands the cause on.
pub proof fn configuration_comes_from_the_path(path: Seq<char>, text: Seq<char>, cause: Seq<char>)
    ensures
        config_start(None) is Defaults,
        config_start(Some(path)) == ConfigStepView::Read(path),
        config_next(path, Ok(text)) == ConfigStepView::Parse(path, text),
        config_next(path, Err(cause)) == ConfigStepView::Fail("failed to read "@ + path, cause),
        unparsed(path, cause) == ConfigStepView::Fail("failed to parse "@ + path, cause),
{
}

/// The contents of a step are what it holds, and those of a file its text or the cause.
pub proof fn config_steps_are_shown_as_they_are(step: ConfigStep, text: String)
    ensures
        match step {
            ConfigStep::Defaults => step@ is Defaults,
            ConfigStep::Read(path) => step@ == ConfigStepView::Read(path@),
            ConfigStep::Parse(path, text) => step@ == ConfigStepView::Parse(path@, text@),
            ConfigStep::Fail(context, cause) => step@ == ConfigStepView::Fail(context@, cause@),
        },
        file_text(Ok(text)) == Ok::<Seq<char>, Seq<char>>(text@),
        file_text(Err(text)) == Err::<Seq<char>, Seq<char>>(text@),
{
}

} // verus!
