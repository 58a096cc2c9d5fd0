//! The inspection backend as the companion sees it.

use vstd::prelude::*;
use vstd::string::StrSliceExecFns;
use crate::common::Config;
use crate::domain_spec::DomainSpec;
use crate::domain_spec::DomainSpecView;
use crate::domain_spec::cut;
use crate::domain_spec::domain_specs_of;
use crate::domain_spec::lemma_cut_is_unique;
use crate::domain_spec::parse_domain_specs;
use crate::domain_spec::spec_views;

verus! {

/// What probing one container brought back.
#[derive(Clone, Debug)]
pub struct Inspection {
    /// Whether the container has the environment variable at all.
    pub envvar_present: bool,
    /// The host under which the container can be reached.
    pub host: String,
    /// The domains it asks to be routed, in the order it lists them.
    pub specs: Vec<DomainSpec>,
}

/// Why a container could not be inspected, or the containers not listed.
#[derive(Clone, Debug)]
pub enum InspectionError {
    /// The backend could not be reached or broke off.
    Communication(String),
    /// The backend knows no container of that name.
    NotFound(String),
    /// The backend answered with something that could not be understood.
    Malformed(String),
}

impl InspectionError {
    /// A copy of the failure.
    pub fn duplicate(&self) -> (copy: InspectionError)
        ensures
            copy == *self,
    {
        match self {
            InspectionError::Communication(cause) => InspectionError::Communication(cause.clone()),
            InspectionError::NotFound(cause) => InspectionError::NotFound(cause.clone()),
            InspectionError::Malformed(cause) => InspectionError::Malformed(cause.clone()),
        }
    }
}

/// A source of container metadata. Nothing is asked of an implementation:
/// whatever it returns, the companion deals with it.
pub trait Inspect {
    /// Probes the container called `container_name`.
    fn inspect(&mut self, container_name: &str) -> Result<Inspection, InspectionError>;

    /// Names all containers that are running right now.
    fn enumerate(&mut self) -> Result<Vec<String>, InspectionError>;
}

/// `answer` is what the backend can answer when it is asked, through the
/// call `asked`, to probe the container called `name`. The call holds the
/// backend as it is before and as it is left.
pub open spec fn inspect_answers<I: Inspect>(
    asked: &mut I,
    name: Seq<char>,
    answer: Result<Inspection, InspectionError>,
) -> bool {
    exists|asked_name: &str|
        {
            &&& #[trigger] call_ensures(I::inspect, (asked, asked_name), answer)
            &&& asked_name@ == name
        }
}

/// `answer` is what the backend can answer when it is asked, through the
/// call `asked`, to name the running containers.
pub open spec fn enumerate_answers<I: Inspect>(
    asked: &mut I,
    answer: Result<Vec<String>, InspectionError>,
) -> bool {
    call_ensures(I::enumerate, (asked,), answer)
}

/// The value that `entry` gives the variable `name`: what stands behind
/// `name=`; `None` where the entry is about another variable.
pub open spec fn value_in(entry: Seq<char>, name: Seq<char>) -> Option<Seq<char>> {
    let at = cut(entry, '=');
    if at < entry.len() && entry.take(at) == name {
        Some(entry.skip(at + 1))
    } else {
        None
    }
}

/// The value of the variable `name` in `environment`: that of the first
/// entry that gives it one.
pub open spec fn variable(environment: Seq<String>, name: Seq<char>) -> Option<Seq<char>>
    decreases environment.len(),
{
    if environment.len() == 0 {
        None
    } else {
        match value_in(environment[0]@, name) {
            Some(value) => Some(value),
            None => variable(environment.drop_first(), name),
        }
    }
}

/// The inspection of a container with the environment `environment`, the
/// host name `hostname` and the bridge address `bridge_address`. The host
/// is the host name where the configuration asks for the container
/// network, else the bridge address. The domains are those that the
/// configured variable lists; an entry there that is no domain spec makes
/// the whole inspection fail, with that entry.
pub open spec fn inspection_of(
    config: Config,
    environment: Seq<String>,
    hostname: String,
    bridge_address: String,
) -> Result<(bool, String, Seq<DomainSpecView>), Seq<char>> {
    let host = if config.docker_network {
        hostname
    } else {
        bridge_address
    };
    match variable(environment, config.envvar@) {
        None => Ok((false, host, Seq::empty())),
        Some(text) => match domain_specs_of(text) {
            Ok(specs) => Ok((true, host, specs)),
            Err(entry) => Err(entry),
        },
    }
}

/// Whether `text` and `other` hold the same characters.
fn same_text(text: &str, other: &str) -> (same: bool)
    ensures
        same == (text@ == other@),
{
    let length = text.unicode_len();
    if other.unicode_len() != length {
        return false;
    }
    let mut at: usize = 0;
    while at < length
        invariant
            at <= length == text@.len() == other@.len(),
            forall|j: int| 0 <= j < at ==> text@[j] == other@[j],
        decreases length - at,
    {
        if text.get_char(at) != other.get_char(at) {
            return false;
        }
        at += 1;
    }
    assert(text@ =~= other@);
    true
}

/// The value that `entry` gives the variable `name`.
fn value_of<'a>(entry: &'a str, name: &str) -> (value: Option<&'a str>)
    ensures
        match value {
            Some(text) => value_in(entry@, name@) == Some(text@),
            None => value_in(entry@, name@) is None,
        },
{
    let length = entry.unicode_len();
    let mut at: usize = 0;
    while at < length && entry.get_char(at) != '='
        invariant
            at <= length == entry@.len(),
            forall|j: int| 0 <= j < at ==> entry@[j] != '=',
        decreases length - at,
    {
        at += 1;
    }
    proof {
        lemma_cut_is_unique(entry@, '=', at as int);
    }
    if at < length && same_text(entry.substring_char(0, at), name) {
        Some(entry.substring_char(at + 1, length))
    } else {
        None
    }
}

/// Looks up the variable `name` in `environment`.
pub fn lookup<'a>(environment: &'a Vec<String>, name: &str) -> (value: Option<&'a str>)
    ensures
        match value {
            Some(text) => variable(environment@, name@) == Some(text@),
            None => variable(environment@, name@) is None,
        },
{
    let mut at: usize = 0;
    assert(environment@.skip(0) == environment@);
    while at < environment.len()
        invariant
            at <= environment.len(),
            variable(environment@, name@) == variable(environment@.skip(at as int), name@),
        decreases environment.len() - at,
    {
        let ghost rest = environment@.skip(at as int);
        proof {
            assert(rest.drop_first() == environment@.skip(at + 1));
        }
        match value_of(environment[at].as_str(), name) {
            Some(text) => {
                return Some(text);
            },
            None => {},
        }
        at += 1;
    }
    None
}

/// Makes the inspection of a container out of what the container runtime
/// tells of it: computes `inspection_of`.
pub fn build_inspection(
    config: &Config,
    environment: &Vec<String>,
    hostname: String,
    bridge_address: String,
) -> (result: Result<Inspection, InspectionError>)
    ensures
        match result {
            Ok(inspection) => inspection_of(*config, environment@, hostname, bridge_address)
                == Ok::<(bool, String, Seq<DomainSpecView>), Seq<char>>(
                (inspection.envvar_present, inspection.host, spec_views(inspection.specs@)),
            ),
            Err(error) => error matches InspectionError::Malformed(entry) && inspection_of(
                *config,
                environment@,
                hostname,
                bridge_address,
            ) == Err::<(bool, String, Seq<DomainSpecView>), Seq<char>>(entry@),
        },
{
    let host = if config.docker_network {
        hostname
    } else {
        bridge_address
    };
    match lookup(environment, config.envvar.as_str()) {
        None => {
            let specs: Vec<DomainSpec> = Vec::new();
            assert(spec_views(specs@) =~= Seq::<DomainSpecView>::empty());
            Ok(Inspection { envvar_present: false, host, specs })
        },
        Some(text) => match parse_domain_specs(text) {
            Ok(specs) => Ok(Inspection { envvar_present: true, host, specs }),
            Err(error) => Err(InspectionError::Malformed(error.text)),
        },
    }
}

} // verus!
