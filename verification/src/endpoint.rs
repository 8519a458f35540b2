use vstd::prelude::*;

verus! {

/// The kind of transport behind an endpoint.
#[derive(Clone, Copy, Debug, PartialEq, Eq, Structural)]
pub enum EndpointKind {
    Serial,
}

/// Names the one physical connection a session targets. It does not change
/// once made.
#[derive(Debug, PartialEq, Eq)]
pub struct EndpointDescriptor {
    name: String,
    kind: EndpointKind,
}

/// What an endpoint descriptor holds.
pub struct EndpointView {
    pub name: Seq<char>,
    pub kind: EndpointKind,
}

impl View for EndpointDescriptor {
    type V = EndpointView;

    closed spec fn view(&self) -> EndpointView {
        EndpointView { name: self.name@, kind: self.kind }
    }
}

impl EndpointDescriptor {
    pub fn new(name: String, kind: EndpointKind) -> (descriptor: EndpointDescriptor)
        ensures
            descriptor@ == (EndpointView { name: name@, kind }),
    {
        EndpointDescriptor { name, kind }
    }

    /// The descriptor of the serial endpoint called `name`.
    pub fn serial(name: &str) -> (descriptor: EndpointDescriptor)
        ensures
            descriptor@ == (EndpointView { name: name@, kind: EndpointKind::Serial }),
    {
        EndpointDescriptor { name: String::from_str(name), kind: EndpointKind::Serial }
    }

    pub fn name(&self) -> (name: &str)
        ensures
            name@ == self@.name,
    {
        self.name.as_str()
    }

    pub fn kind(&self) -> (kind: EndpointKind)
        ensures
            kind == self@.kind,
    {
        self.kind
    }
}

impl Clone for EndpointDescriptor {
    fn clone(&self) -> (copy: EndpointDescriptor)
        ensures
            copy@ == self@,
    {
        EndpointDescriptor { name: self.name.clone(), kind: self.kind }
    }
}

/// Why a connection was not even attempted.
#[derive(Clone, Copy, Debug, PartialEq, Eq, Structural)]
pub enum Refusal {
    /// No program has been loaded, so there is nothing to send.
    ProgramMissing,
    /// No endpoint has been selected.
    EndpointMissing,
}

impl Refusal {
    /// What the operator is told.
    pub open spec fn text(self) -> Seq<char> {
        match self {
            Refusal::ProgramMissing => "Please import SVG-File first"@,
            Refusal::EndpointMissing => "Please select a port with a connected GrblHAL CNC"@,
        }
    }

    pub fn message(self) -> (message: String)
        ensures
            message@ == self.text(),
    {
        match self {
            Refusal::ProgramMissing => String::from_str("Please import SVG-File first"),
            Refusal::EndpointMissing => String::from_str(
                "Please select a port with a connected GrblHAL CNC",
            ),
        }
    }
}

/// What `select_endpoint` answers for a given selection.
pub open spec fn selection(program_missing: bool, selected: Option<Seq<char>>) -> Result<
    EndpointView,
    Refusal,
> {
    if program_missing {
        Err(Refusal::ProgramMissing)
    } else {
        match selected {
            None => Err(Refusal::EndpointMissing),
            Some(name) => Ok(EndpointView { name, kind: EndpointKind::Serial }),
        }
    }
}

/// Checks what a caller must have before it asks a session to connect: a
/// loaded program, where one is to be sent, and a selected endpoint. A
/// missing program is reported before a missing endpoint. Where both are
/// there, the answer is the serial endpoint of the selected name.
pub fn select_endpoint(program_missing: bool, selected: Option<&str>) -> (answer: Result<
    EndpointDescriptor,
    Refusal,
>)
    ensures
        match (answer, selection(program_missing, view_of(selected))) {
            (Ok(descriptor), Ok(expected)) => descriptor@ == expected,
            (Err(refusal), Err(expected)) => refusal == expected,
            _ => false,
        },
{
    if program_missing {
        Err(Refusal::ProgramMissing)
    } else {
        match selected {
            None => Err(Refusal::EndpointMissing),
            Some(name) => Ok(EndpointDescriptor::serial(name)),
        }
    }
}

/// The characters of an optional string.
pub open spec fn view_of(text: Option<&str>) -> Option<Seq<char>> {
    match text {
        None => None,
        Some(text) => Some(text@),
    }
}

} // verus!
