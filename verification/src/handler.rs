//! Registering the `gxt:` protocol with the Windows registry: what is to be
//! written there. Writing it, and asking for the rights to, is left to the
//! caller.

use vstd::prelude::*;
use vstd::string::StringExecFns;

verus! {

/// One value to set in the registry, under the root of the classes.
#[derive(Clone, Debug, PartialEq, Eq)]
pub struct RegistryValue {
    /// The key, which is made where it is missing.
    pub key: String,
    /// The name of the value; empty for the key's default value.
    pub name: String,
    /// The text to set.
    pub data: String,
}

/// What registering the protocol handler takes.
#[derive(Clone, Debug, PartialEq, Eq)]
pub enum Registration {
    /// The process lacks the rights: run it once more, elevated.
    Elevate,
    /// Set these values, in this order.
    Write(Vec<RegistryValue>),
}

/// The command that opens a token with the program at `executable`.
pub open spec fn open_command(executable: Seq<char>) -> Seq<char> {
    executable + " \"%1\""@
}

/// Whether `values` are the two values that register the protocol for the
/// program at `executable`: the key `gxt` marked as a URL protocol, and the
/// command that opens a token as the default value of its `open` command.
pub open spec fn registers(values: Seq<RegistryValue>, executable: Seq<char>) -> bool {
    &&& values.len() == 2
    &&& values[0].key@ == "gxt"@
    &&& values[0].name@ == "URL Protocol"@
    &&& values[0].data@ == Seq::<char>::empty()
    &&& values[1].key@ == "gxt\\shell\\open\\command"@
    &&& values[1].name@ == Seq::<char>::empty()
    &&& values[1].data@ == open_command(executable)
}

/// Decides what registering the protocol handler takes: an elevated run
/// where the process is not elevated, else the two values to set.
pub fn register_protocol_handler(elevated: bool, executable: &str) -> (plan: Registration)
    ensures
        match plan {
            Registration::Elevate => !elevated,
            Registration::Write(values) => elevated && registers(values@, executable@),
        },
{
    if !elevated {
        return Registration::Elevate;
    }
    let mut command = String::from_str(executable);
    command.append(" \"%1\"");
    let mut values: Vec<RegistryValue> = Vec::new();
    values.push(
        RegistryValue {
            key: String::from_str("gxt"),
            name: String::from_str("URL Protocol"),
            data: String::new(),
        },
    );
    values.push(
        RegistryValue {
            key: String::from_str("gxt\\shell\\open\\command"),
            name: String::new(),
            data: command,
        },
    );
    Registration::Write(values)
}

} // verus!
