use vstd::prelude::*;
use crate::error::SessionError;

verus! {

/// What was read off the device after a query batch: each field is there
/// only if the device's reply held it.
#[derive(Debug, PartialEq, Eq)]
pub struct StatusReply {
    pub firmware_name: Option<String>,
    pub firmware_version: Option<String>,
    pub machine_state: Option<String>,
    pub gcode_state: Option<String>,
}

/// What a status reply holds.
pub struct StatusReplyView {
    pub firmware_name: Option<Seq<char>>,
    pub firmware_version: Option<Seq<char>>,
    pub machine_state: Option<Seq<char>>,
    pub gcode_state: Option<Seq<char>>,
}

/// The characters of an optional string.
pub open spec fn text_of(text: Option<String>) -> Option<Seq<char>> {
    match text {
        None => None,
        Some(text) => Some(text@),
    }
}

impl View for StatusReply {
    type V = StatusReplyView;

    open spec fn view(&self) -> StatusReplyView {
        StatusReplyView {
            firmware_name: text_of(self.firmware_name),
            firmware_version: text_of(self.firmware_version),
            machine_state: text_of(self.machine_state),
            gcode_state: text_of(self.gcode_state),
        }
    }
}

impl StatusReplyView {
    /// A reply is complete when none of its four fields is missing.
    pub open spec fn complete(self) -> bool {
        &&& self.firmware_name is Some
        &&& self.firmware_version is Some
        &&& self.machine_state is Some
        &&& self.gcode_state is Some
    }
}

/// The device's status as of the last successful refresh. A snapshot is
/// always whole: it is made from a complete reply or not at all, and it is
/// replaced, never edited.
#[derive(Debug, PartialEq, Eq)]
pub struct StatusSnapshot {
    id: String,
    firmware_name: String,
    firmware_version: String,
    machine_state: String,
    gcode_state: String,
}

/// What a status snapshot holds.
pub struct SnapshotView {
    pub id: Seq<char>,
    pub firmware_name: Seq<char>,
    pub firmware_version: Seq<char>,
    pub machine_state: Seq<char>,
    pub gcode_state: Seq<char>,
}

impl View for StatusSnapshot {
    type V = SnapshotView;

    closed spec fn view(&self) -> SnapshotView {
        SnapshotView {
            id: self.id@,
            firmware_name: self.firmware_name@,
            firmware_version: self.firmware_version@,
            machine_state: self.machine_state@,
            gcode_state: self.gcode_state@,
        }
    }
}

/// The snapshot that the device called `id` gets from `reply`: none unless
/// the reply is complete, and then the one that holds the identifier and the
/// reply's four fields unchanged.
pub open spec fn assembled(id: Seq<char>, reply: StatusReplyView) -> Option<SnapshotView> {
    if reply.complete() {
        Some(
            SnapshotView {
                id,
                firmware_name: reply.firmware_name->0,
                firmware_version: reply.firmware_version->0,
                machine_state: reply.machine_state->0,
                gcode_state: reply.gcode_state->0,
            },
        )
    } else {
        None
    }
}

impl SnapshotView {
    /// The snapshot as the operator reads it: five labelled lines.
    pub open spec fn text(self) -> Seq<char> {
        "id: "@ + self.id + "\nfirmware name: "@ + self.firmware_name + "\nfirmware version: "@
            + self.firmware_version + "\nmachine state: "@ + self.machine_state
            + "\nG-Code state: "@ + self.gcode_state + "\n"@
    }
}

impl StatusSnapshot {
    /// Makes the snapshot of the device called `id` from what it replied.
    /// An incomplete reply gives no snapshot, not a partly filled one.
    pub fn assemble(id: &str, reply: StatusReply) -> (made: Result<StatusSnapshot, SessionError>)
        ensures
            match made {
                Ok(snapshot) => assembled(id@, reply@) == Some(snapshot@),
                Err(error) => error == SessionError::StatusParseFailed && assembled(id@, reply@)
                    is None,
            },
    {
        let StatusReply { firmware_name, firmware_version, machine_state, gcode_state } = reply;
        match (firmware_name, firmware_version, machine_state, gcode_state) {
            (Some(firmware_name), Some(firmware_version), Some(machine_state), Some(gcode_state)) => {
                Ok(
                    StatusSnapshot {
                        id: String::from_str(id),
                        firmware_name,
                        firmware_version,
                        machine_state,
                        gcode_state,
                    },
                )
            },
            _ => Err(SessionError::StatusParseFailed),
        }
    }

    pub fn id(&self) -> (id: &str)
        ensures
            id@ == self@.id,
    {
        self.id.as_str()
    }

    pub fn firmware_name(&self) -> (name: &str)
        ensures
            name@ == self@.firmware_name,
    {
        self.firmware_name.as_str()
    }

    pub fn firmware_version(&self) -> (version: &str)
        ensures
            version@ == self@.firmware_version,
    {
        self.firmware_version.as_str()
    }

    pub fn machine_state(&self) -> (state: &str)
        ensures
            state@ == self@.machine_state,
    {
        self.machine_state.as_str()
    }

    pub fn gcode_state(&self) -> (state: &str)
        ensures
            state@ == self@.gcode_state,
    {
        self.gcode_state.as_str()
    }

    /// Renders the snapshot for display.
    pub fn describe(&self) -> (text: String)
        ensures
            text@ == self@.text(),
    {
        let mut text = String::from_str("id: ");
        text.append(self.id.as_str());
        text.append("\nfirmware name: ");
        text.append(self.firmware_name.as_str());
        text.append("\nfirmware version: ");
        text.append(self.firmware_version.as_str());
        text.append("\nmachine state: ");
        text.append(self.machine_state.as_str());
        text.append("\nG-Code state: ");
        text.append(self.gcode_state.as_str());
        text.append("\n");
        text
    }
}

impl Clone for StatusSnapshot {
    fn clone(&self) -> (copy: StatusSnapshot)
        ensures
            copy@ == self@,
    {
        StatusSnapshot {
            id: self.id.clone(),
            firmware_name: self.firmware_name.clone(),
            firmware_version: self.firmware_version.clone(),
            machine_state: self.machine_state.clone(),
            gcode_state: self.gcode_state.clone(),
        }
    }
}

} // verus!
