//! Commands: how one is described, what a handler may answer, and how an
//! argument text is held to a command's syntax.

use std::borrow::Cow;
use std::convert::Infallible;
use std::sync::Arc;
use vstd::prelude::*;
use vstd::std_specs::convert::FromSpecImpl;
use yaml_rust::ScanError;
use yaml_rust::Yaml;

verus! {

/// `yaml_rust::Yaml`, a YAML node. Nothing is known of what one holds.
#[verifier::external_type_specification]
#[verifier::external_body]
pub struct ExYaml(yaml_rust::Yaml);

/// `yaml_rust::ScanError`, the error of the YAML scanner. Nothing is known
/// of what one holds.
#[verifier::external_type_specification]
#[verifier::external_body]
pub struct ExScanError(yaml_rust::ScanError);

/// A registered command. `M` is the module that provides it and `H` what
/// runs it; neither is looked into here.
pub struct BotCommand<M, H: ?Sized> {
    pub name: Cow<'static, str>,
    pub provider: Arc<M>,
    pub auth_lvl: BotCmdAuthLvl,
    pub handler: Arc<H>,
    pub usage_str: Cow<'static, str>,
    pub usage_yaml: Yaml,
    pub help_msg: Cow<'static, str>,
}

/// Attributes of a command. There are none yet: the one variant holds a
/// value of a type that has none, so no attribute can be made.
#[derive(Debug)]
pub enum BotCmdAttr {
    Never(Infallible),
}

/// What a command handler answers. `R` is what the bot is to do on success
/// and `E` the error of the framework; neither is looked into here.
#[derive(Debug)]
pub enum BotCmdResult<R, E> {
    /// The command was processed. The reaction is passed on.
    Okay(R),
    /// The user may not invoke the command.
    Unauthorized,
    /// The command was invoked with wrong syntax.
    SyntaxErr,
    /// The named argument is required and was not given.
    ArgMissing(Cow<'static, str>),
    /// The named argument is required in one-to-one communication and was
    /// not given.
    ArgMissing1To1(Cow<'static, str>),
    /// An error of the framework, passed on.
    LibErr(E),
    /// Some other error that the user made, with a message for the reply.
    UserErrMsg(Cow<'static, str>),
    /// Some other error that the user did not make, with a message for the
    /// reply.
    BotErrMsg(Cow<'static, str>),
}

/// What a user must be to invoke a command. The levels are ordered by
/// privilege: an admin may do whatever the public may.
#[derive(Clone, Copy, Debug, PartialEq, Eq, Structural)]
pub enum BotCmdAuthLvl {
    Public,
    Admin,
}

impl BotCmdAuthLvl {
    /// The place of the level in the order of privilege.
    pub open spec fn rank(self) -> nat {
        match self {
            BotCmdAuthLvl::Public => 0,
            BotCmdAuthLvl::Admin => 1,
        }
    }

    /// Whether a user of this level may invoke a command that requires the
    /// level `required`. Whoever dispatches a command asks this before the
    /// handler runs, and answers [`BotCmdResult::Unauthorized`] otherwise.
    pub fn satisfies(&self, required: &BotCmdAuthLvl) -> (r: bool)
        ensures
            r == (self.rank() >= required.rank()),
    {
        match (self, required) {
            (BotCmdAuthLvl::Public, BotCmdAuthLvl::Admin) => false,
            _ => true,
        }
    }
}

/// Why a validator turned an argument text down.
#[derive(Debug)]
pub enum ArgError<E> {
    /// The text could not be scanned as YAML.
    Scan(ScanError),
    /// Anything else, as an error of the framework.
    Other(E),
}

impl<R, E> From<R> for BotCmdResult<R, E> {
    /// Success with the reaction `r`.
    fn from(r: R) -> (res: Self) {
        BotCmdResult::Okay(r)
    }
}

impl<R, E> FromSpecImpl<R> for BotCmdResult<R, E> {
    open spec fn obeys_from_spec() -> bool {
        true
    }

    open spec fn from_spec(r: R) -> Self {
        BotCmdResult::Okay(r)
    }
}

/// The label by which messages about a turned-down argument call it.
pub const ARG_LABEL: &'static str = "<argument>";

/// What a YAML node holds as a mapping: its entries, each a key and a value,
/// in the order in which they were inserted; `None` for a node that is no
/// mapping.
pub uninterp spec fn mapping_entries(node: Yaml) -> Option<Seq<(Yaml, Yaml)>>;

/// The empty YAML mapping: `Yaml::Hash` of the default
/// `yaml_rust::yaml::Hash`, a linked hash map that is made without an
/// entry. The contract claims that the node is a mapping and has no entry.
#[verifier::external_body]
fn empty_mapping() -> (node: Yaml)
    ensures
        mapping_entries(node) == Some(Seq::<(Yaml, Yaml)>::empty()),
{
    Yaml::Hash(Default::default())
}

/// What a handler answers to the finding of a validator: the argument where
/// it was accepted, a syntax error where the text could not be scanned, and
/// the framework's error in every other case.
pub open spec fn arg_outcome<R, E>(validated: Result<Yaml, ArgError<E>>) -> Result<
    Yaml,
    BotCmdResult<R, E>,
> {
    match validated {
        Ok(arg) => Ok(arg),
        Err(ArgError::Scan(_)) => Err(BotCmdResult::SyntaxErr),
        Err(ArgError::Other(e)) => Err(BotCmdResult::LibErr(e)),
    }
}

/// Turns the finding of a validator into what a handler answers.
pub fn arg_result<R, E>(validated: Result<Yaml, ArgError<E>>) -> (r: Result<
    Yaml,
    BotCmdResult<R, E>,
>)
    ensures
        r == arg_outcome::<R, E>(validated),
{
    match validated {
        Ok(arg) => Ok(arg),
        Err(ArgError::Scan(_)) => Err(BotCmdResult::SyntaxErr),
        Err(ArgError::Other(e)) => Err(BotCmdResult::LibErr(e)),
    }
}

/// Holds the argument text `arg_str` to the syntax `syntax`. The validator
/// `validate` does the work: it gets the text, the syntax, the label
/// [`ARG_LABEL`] and the empty mapping, which is the value of an argument
/// that was not given. What it finds is answered as [`arg_outcome`] says.
pub fn parse_arg<R, E, F>(syntax: &Yaml, arg_str: &str, validate: F) -> (r: Result<
    Yaml,
    BotCmdResult<R, E>,
>) where F: FnOnce(&str, &Yaml, &str, Yaml) -> Result<Yaml, ArgError<E>>
    requires
        forall|dflt: Yaml|
            mapping_entries(dflt) == Some(Seq::<(Yaml, Yaml)>::empty()) ==> call_requires(
                validate,
                (arg_str, syntax, ARG_LABEL, dflt),
            ),
    ensures
        exists|dflt: Yaml, validated: Result<Yaml, ArgError<E>>|
            {
                &&& mapping_entries(dflt) == Some(Seq::<(Yaml, Yaml)>::empty())
                &&& call_ensures(validate, (arg_str, syntax, ARG_LABEL, dflt), validated)
                &&& r == arg_outcome::<R, E>(validated)
            },
{
    let dflt = empty_mapping();
    let validated = validate(arg_str, syntax, ARG_LABEL, dflt);
    arg_result(validated)
}

} // verus!
