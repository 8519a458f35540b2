use vstd::prelude::*;

verus! {

/// The direction of a jog, as the operator sees it.
#[derive(Clone, Copy, Debug, PartialEq, Eq, Structural)]
pub enum Direction {
    Forward,
    Back,
    Left,
    Right,
}

/// A machine axis that a jog can move along.
#[derive(Clone, Copy, Debug, PartialEq, Eq, Structural)]
pub enum Axis {
    X,
    Y,
}

/// One of the four status queries. Their order here is the order in which
/// the device must receive them, because it assembles its reply cumulatively.
#[derive(Clone, Copy, Debug, PartialEq, Eq, Structural)]
pub enum Query {
    ExtendedInfo,
    AllSettings,
    SettingsDetails,
    SettingsGroups,
}

/// An outbound instruction. Commands are write-only: no reply is awaited
/// for any single one of them.
#[derive(Clone, Copy, Debug, PartialEq, Eq, Structural)]
pub enum Command {
    Query(Query),
    Jog(Direction),
}

impl Direction {
    /// The axis a jog in this direction moves along: forward and back move
    /// along Y, left and right along X.
    pub open spec fn spec_axis(self) -> Axis {
        match self {
            Direction::Forward | Direction::Back => Axis::Y,
            Direction::Left | Direction::Right => Axis::X,
        }
    }

    /// Whether a jog in this direction moves towards larger coordinates:
    /// forward and right do, back and left do not.
    pub open spec fn spec_positive(self) -> bool {
        match self {
            Direction::Forward | Direction::Right => true,
            Direction::Back | Direction::Left => false,
        }
    }

    #[verifier::when_used_as_spec(spec_axis)]
    pub fn axis(self) -> (axis: Axis)
        ensures
            axis == self.spec_axis(),
    {
        match self {
            Direction::Forward | Direction::Back => Axis::Y,
            Direction::Left | Direction::Right => Axis::X,
        }
    }

    #[verifier::when_used_as_spec(spec_positive)]
    pub fn positive(self) -> (positive: bool)
        ensures
            positive == self.spec_positive(),
    {
        match self {
            Direction::Forward | Direction::Right => true,
            Direction::Back | Direction::Left => false,
        }
    }
}

impl Axis {
    /// The word letter of this axis.
    pub open spec fn letter(self) -> Seq<char> {
        match self {
            Axis::X => "X"@,
            Axis::Y => "Y"@,
        }
    }
}

impl Query {
    /// The text of this query, without its line end.
    pub open spec fn text(self) -> Seq<char> {
        match self {
            Query::ExtendedInfo => "$I+"@,
            Query::AllSettings => "$+"@,
            Query::SettingsDetails => "$ES"@,
            Query::SettingsGroups => "$EG"@,
        }
    }

    /// The query that follows this one in the batch, if any.
    pub open spec fn spec_next(self) -> Option<Query> {
        match self {
            Query::ExtendedInfo => Some(Query::AllSettings),
            Query::AllSettings => Some(Query::SettingsDetails),
            Query::SettingsDetails => Some(Query::SettingsGroups),
            Query::SettingsGroups => None,
        }
    }

    #[verifier::when_used_as_spec(spec_next)]
    pub fn next(self) -> (next: Option<Query>)
        ensures
            next == self.spec_next(),
    {
        match self {
            Query::ExtendedInfo => Some(Query::AllSettings),
            Query::AllSettings => Some(Query::SettingsDetails),
            Query::SettingsDetails => Some(Query::SettingsGroups),
            Query::SettingsGroups => None,
        }
    }
}

/// The sign of a unit step: nothing for a step towards larger coordinates,
/// a minus for one towards smaller.
pub open spec fn sign_text(positive: bool) -> Seq<char> {
    if positive {
        Seq::empty()
    } else {
        "-"@
    }
}

/// The line that jogs one unit along `axis`: a jog request in millimetres
/// (`G21`), relative to the current position (`G91`), of magnitude 1, at
/// feed rate 100, ended by one newline.
pub open spec fn jog_line(axis: Axis, positive: bool) -> Seq<char> {
    "$J=G21G91"@ + axis.letter() + sign_text(positive) + "1F100"@ + "\n"@
}

impl Command {
    /// The exact text the device is sent for this command: one line, ended
    /// by exactly one newline.
    pub open spec fn wire(self) -> Seq<char> {
        match self {
            Command::Query(query) => query.text() + "\n"@,
            Command::Jog(direction) => jog_line(direction.spec_axis(), direction.spec_positive()),
        }
    }

    /// The command that one operation writes after this one, if any: the
    /// next query of the batch after a query, nothing after a jog.
    pub open spec fn spec_next(self) -> Option<Command> {
        match self {
            Command::Query(query) => match query.spec_next() {
                Some(next) => Some(Command::Query(next)),
                None => None,
            },
            Command::Jog(_) => None,
        }
    }

    #[verifier::when_used_as_spec(spec_next)]
    pub fn next(self) -> (next: Option<Command>)
        ensures
            next == self.spec_next(),
    {
        match self {
            Command::Query(query) => match query.next() {
                Some(next) => Some(Command::Query(next)),
                None => None,
            },
            Command::Jog(_) => None,
        }
    }

    /// Encodes the command as the line to hand to the transport in one write.
    pub fn encode(self) -> (line: String)
        ensures
            line@ == self.wire(),
    {
        match self {
            Command::Query(query) => {
                let mut line = match query {
                    Query::ExtendedInfo => String::from_str("$I+"),
                    Query::AllSettings => String::from_str("$+"),
                    Query::SettingsDetails => String::from_str("$ES"),
                    Query::SettingsGroups => String::from_str("$EG"),
                };
                line.append("\n");
                line
            },
            Command::Jog(direction) => {
                let mut line = String::from_str("$J=G21G91");
                match direction.axis() {
                    Axis::X => line.append("X"),
                    Axis::Y => line.append("Y"),
                }
                if !direction.positive() {
                    line.append("-");
                }
                line.append("1F100");
                line.append("\n");
                line
            },
        }
    }
}

/// The line of each command, written out in full.
pub open spec fn line_in_full(command: Command) -> Seq<char> {
    match command {
        Command::Query(Query::ExtendedInfo) => "$I+\n"@,
        Command::Query(Query::AllSettings) => "$+\n"@,
        Command::Query(Query::SettingsDetails) => "$ES\n"@,
        Command::Query(Query::SettingsGroups) => "$EG\n"@,
        Command::Jog(Direction::Forward) => "$J=G21G91Y1F100\n"@,
        Command::Jog(Direction::Back) => "$J=G21G91Y-1F100\n"@,
        Command::Jog(Direction::Left) => "$J=G21G91X-1F100\n"@,
        Command::Jog(Direction::Right) => "$J=G21G91X1F100\n"@,
    }
}

/// Spells out the line of `command`: character by character it is the line
/// written out in full, and its only newline is its last character.
proof fn spelled_out(command: Command)
    ensures
        command.wire() == line_in_full(command),
        command.wire().len() > 0,
        command.wire().last() == '\n',
        forall|i: int| 0 <= i < command.wire().len() - 1 ==> command.wire()[i] != '\n',
{
    reveal_strlit("$I+");
    reveal_strlit("$+");
    reveal_strlit("$ES");
    reveal_strlit("$EG");
    reveal_strlit("$J=G21G91");
    reveal_strlit("X");
    reveal_strlit("Y");
    reveal_strlit("-");
    reveal_strlit("1F100");
    reveal_strlit("\n");
    reveal_strlit("$I+\n");
    reveal_strlit("$+\n");
    reveal_strlit("$ES\n");
    reveal_strlit("$EG\n");
    reveal_strlit("$J=G21G91Y1F100\n");
    reveal_strlit("$J=G21G91Y-1F100\n");
    reveal_strlit("$J=G21G91X-1F100\n");
    reveal_strlit("$J=G21G91X1F100\n");
    assert(command.wire() =~= line_in_full(command));
}

/// What a command is encoded as is its line as written out in full.
pub proof fn wire_in_full(command: Command)
    ensures
        command.wire() == line_in_full(command),
{
    spelled_out(command);
}

/// Every command goes out as exactly one line: its text holds one newline,
/// and that is its last character.
pub proof fn wire_is_one_line(command: Command)
    ensures
        command.wire().len() > 0,
        command.wire().last() == '\n',
        forall|i: int| 0 <= i < command.wire().len() - 1 ==> command.wire()[i] != '\n',
{
    spelled_out(command);
}

/// The commands one status refresh writes, in the order it writes them:
/// extended info, all settings, settings details, settings groups.
pub open spec fn query_order() -> Seq<Command> {
    seq![
        Command::Query(Query::ExtendedInfo),
        Command::Query(Query::AllSettings),
        Command::Query(Query::SettingsDetails),
        Command::Query(Query::SettingsGroups),
    ]
}

/// The order of the batch is the order in which one query follows another:
/// the batch starts with the extended-info query, each of its commands is
/// followed by the next of the batch, and nothing follows its last.
pub proof fn next_walks_query_order()
    ensures
        query_order().len() == 4,
        query_order().first() == Command::Query(Query::ExtendedInfo),
        forall|i: int|
            0 <= i < query_order().len() - 1 ==> (#[trigger] query_order()[i]).spec_next()
                == Some(query_order()[i + 1]),
        query_order().last().spec_next() is None,
{
}

/// The batch of commands one status refresh writes, in order.
pub fn query_batch() -> (batch: Vec<Command>)
    ensures
        batch@ == query_order(),
{
    let mut batch: Vec<Command> = Vec::new();
    batch.push(Command::Query(Query::ExtendedInfo));
    batch.push(Command::Query(Query::AllSettings));
    batch.push(Command::Query(Query::SettingsDetails));
    batch.push(Command::Query(Query::SettingsGroups));
    batch
}

} // verus!
