//! First-time setup: turning what the user typed into a configuration, and
//! deciding from the answers of Home Assistant whether to keep it.

use crate::config::{Config, ConfigView};
use vstd::prelude::*;
use vstd::string::StringExecFns;

verus! {

/// Whether a character is white space to `char::is_whitespace`, that is,
/// whether it has the Unicode property `White_Space`.
pub uninterp spec fn is_whitespace(c: char) -> bool;

/// `part` is `whole` without the white space at its two ends: it is the
/// stretch of `whole` between `start` and `end`, all that lies outside the
/// stretch is white space, and the stretch neither begins nor ends with any.
pub open spec fn trims_at(whole: Seq<char>, part: Seq<char>, start: int, end: int) -> bool {
    &&& 0 <= start <= end <= whole.len()
    &&& part == whole.subrange(start, end)
    &&& forall|i: int| 0 <= i < start ==> is_whitespace(#[trigger] whole[i])
    &&& forall|i: int| end <= i < whole.len() ==> is_whitespace(#[trigger] whole[i])
    &&& start < end ==> !is_whitespace(whole[start]) && !is_whitespace(whole[end - 1])
}

/// `part` is `whole` with leading and trailing white space removed.
pub open spec fn is_trimmed(whole: Seq<char>, part: Seq<char>) -> bool {
    exists|start: int, end: int| trims_at(whole, part, start, end)
}

/// `str::trim`. The contract is what its documentation says: the result is
/// a slice of the argument, what was cut off at either end is white space
/// as `char::is_whitespace` has it, and the result has none at its ends.
#[verifier::external_body]
fn trim(text: &str) -> (kept: &str)
    ensures
        is_trimmed(text@, kept@),
        kept@.len() > 0 ==> !is_whitespace(kept@.first()) && !is_whitespace(kept@.last()),
{
    text.trim()
}

/// A text has one trimmed form only.
pub proof fn lemma_trimmed_is_unique(whole: Seq<char>, one: Seq<char>, other: Seq<char>)
    requires
        is_trimmed(whole, one),
        is_trimmed(whole, other),
    ensures
        one == other,
{
    let (a, b) = choose|a: int, b: int| trims_at(whole, one, a, b);
    let (c, d) = choose|c: int, d: int| trims_at(whole, other, c, d);
    if a < b {
        assert(!is_whitespace(whole[a]) && !is_whitespace(whole[b - 1]));
        if c < d {
            assert(!is_whitespace(whole[c]) && !is_whitespace(whole[d - 1]));
            assert(a == c && b == d);
        } else {
            assert(is_whitespace(whole[a]));
        }
    } else {
        if c < d {
            assert(!is_whitespace(whole[c]));
            assert(is_whitespace(whole[c]));
        } else {
            assert(one =~= other);
        }
    }
}

impl Config {
    /// Builds the configuration of a fresh setup from three lines that the
    /// user typed. White space round each answer, the end of the line
    /// included, is dropped. Everything else is as in
    /// [`Config::with_defaults`].
    pub fn from_answers(url: &str, api_key: &str, entity: &str) -> (config: Config)
        ensures
            is_trimmed(url@, config@.homeassistant.url),
            is_trimmed(api_key@, config@.homeassistant.api_key),
            is_trimmed(entity@, config@.homeassistant.entity),
            config@ == ConfigView::with_defaults(
                config@.homeassistant.url,
                config@.homeassistant.api_key,
                config@.homeassistant.entity,
            ),
            config.check@.is_valid(),
    {
        let url_kept = trim(url);
        let api_key_kept = trim(api_key);
        let entity_kept = trim(entity);
        Config::with_defaults(
            String::from_str(url_kept),
            String::from_str(api_key_kept),
            String::from_str(entity_kept),
        )
    }
}

/// Why the answers of a setup were turned down.
#[derive(Clone, Copy, Debug, PartialEq, Eq, Structural)]
pub enum Complaint {
    /// Home Assistant did not accept the URL and API key.
    InvalidCredentials,
    /// The state of the entity could not be read.
    EntityError,
}

/// What a setup does next with the configuration it is trying out.
#[derive(Clone, Copy, Debug, PartialEq, Eq, Structural)]
pub enum SetupStep {
    /// Read the state of the entity.
    ReadEntity,
    /// Tell the user what was wrong and ask all questions again.
    AskAgain(Complaint),
    /// Keep the configuration and save it.
    Save,
}

impl Complaint {
    /// What the user is told.
    pub open spec fn spec_message(self) -> Seq<char> {
        match self {
            Complaint::InvalidCredentials =>
                "Home Assistant credentials were invalid, please try again"@,
            Complaint::EntityError => "Home Assistant entity returned error, please try again"@,
        }
    }

    /// What the user is told.
    pub fn message(&self) -> (text: &'static str)
        ensures
            text@ == self.spec_message(),
    {
        match self {
            Complaint::InvalidCredentials =>
                "Home Assistant credentials were invalid, please try again",
            Complaint::EntityError => "Home Assistant entity returned error, please try again",
        }
    }
}

impl SetupStep {
    /// The step after the credentials were checked: with valid credentials
    /// the entity is looked at next, with others the user is asked again
    /// and the entity is not asked for.
    pub open spec fn spec_after_credentials(valid: bool) -> SetupStep {
        if valid {
            SetupStep::ReadEntity
        } else {
            SetupStep::AskAgain(Complaint::InvalidCredentials)
        }
    }

    /// The step after the state of the entity was asked for: the
    /// configuration is kept if the state could be read, else the user is
    /// asked again.
    pub open spec fn spec_after_entity(readable: bool) -> SetupStep {
        if readable {
            SetupStep::Save
        } else {
            SetupStep::AskAgain(Complaint::EntityError)
        }
    }

    /// Decides what follows the check of the credentials.
    pub fn after_credentials(valid: bool) -> (step: SetupStep)
        ensures
            step == Self::spec_after_credentials(valid),
    {
        if valid {
            SetupStep::ReadEntity
        } else {
            SetupStep::AskAgain(Complaint::InvalidCredentials)
        }
    }

    /// Decides what follows the reading of the entity's state.
    pub fn after_entity(readable: bool) -> (step: SetupStep)
        ensures
            step == Self::spec_after_entity(readable),
    {
        if readable {
            SetupStep::Save
        } else {
            SetupStep::AskAgain(Complaint::EntityError)
        }
    }
}

} // verus!
