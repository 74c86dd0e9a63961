//! The line protocol of the control service: an action and its arguments,
//! separated by carriage return and line feed.

use vstd::prelude::*;
use vstd::slice::slice_subrange;
use vstd::slice::slice_to_vec;
use vstd::string::StringExecFns;

verus! {

/// Carriage return.
pub const CR: u8 = 13;

/// Line feed.
pub const LF: u8 = 10;

/// Whether a separator starts at position `i` of `bytes`.
pub open spec fn separator_at(bytes: Seq<u8>, i: int) -> bool {
    0 <= i && i + 1 < bytes.len() && bytes[i] == CR && bytes[i + 1] == LF
}

/// The position of the first separator at or after `from`, or the length
/// of `bytes` where none follows.
pub open spec fn next_separator(bytes: Seq<u8>, from: int) -> int
    decreases bytes.len() - from,
{
    if from < 0 || from + 1 >= bytes.len() {
        bytes.len() as int
    } else if separator_at(bytes, from) {
        from
    } else {
        next_separator(bytes, from + 1)
    }
}

/// The parts that the separators cut out of `bytes` from position `start`
/// on. Separators are taken from left to right and do not overlap; two in
/// a row, or one at the end, leave an empty part.
pub open spec fn parts_from(bytes: Seq<u8>, start: int) -> Seq<Seq<u8>>
    decreases bytes.len() - start,
{
    let cut = next_separator(bytes, start);
    if 0 <= start <= cut && cut + 2 <= bytes.len() {
        seq![bytes.subrange(start, cut)] + parts_from(bytes, cut + 2)
    } else if 0 <= start <= bytes.len() {
        seq![bytes.subrange(start, bytes.len() as int)]
    } else {
        seq![Seq::empty()]
    }
}

/// The parts of a whole message.
pub open spec fn parts_of(bytes: Seq<u8>) -> Seq<Seq<u8>> {
    parts_from(bytes, 0)
}

/// What `next_separator` finds is a separator, and the first one.
pub proof fn lemma_next_separator(bytes: Seq<u8>, from: int)
    requires
        0 <= from,
    ensures
        from <= next_separator(bytes, from) || next_separator(bytes, from) == bytes.len(),
        next_separator(bytes, from) <= bytes.len(),
        next_separator(bytes, from) < bytes.len() ==> separator_at(
            bytes,
            next_separator(bytes, from),
        ),
        forall|i: int| from <= i < next_separator(bytes, from) ==> !separator_at(bytes, i),
    decreases bytes.len() - from,
{
    if from + 1 >= bytes.len() {
    } else if separator_at(bytes, from) {
    } else {
        lemma_next_separator(bytes, from + 1);
    }
}

/// Finds the first separator at or after `from`.
pub fn find_separator(bytes: &[u8], from: usize) -> (r: usize)
    ensures
        r == next_separator(bytes@, from as int),
        r <= bytes@.len(),
{
    let mut i: usize = from;
    proof {
        lemma_next_separator(bytes@, from as int);
    }
    while i < bytes.len() && i + 1 < bytes.len()
        invariant
            from <= i,
            next_separator(bytes@, from as int) == next_separator(bytes@, i as int),
        decreases bytes@.len() - i,
    {
        if bytes[i] == CR && bytes[i + 1] == LF {
            return i;
        }
        i = i + 1;
    }
    bytes.len()
}

/// The views of a list of parts.
pub open spec fn views(parts: Seq<Vec<u8>>) -> Seq<Seq<u8>> {
    Seq::new(parts.len(), |i: int| parts[i]@)
}

/// Cuts a message into its parts.
pub fn split_message(bytes: &[u8]) -> (r: Vec<Vec<u8>>)
    ensures
        views(r@) == parts_of(bytes@),
        r@.len() >= 1,
{
    let mut parts: Vec<Vec<u8>> = Vec::new();
    let mut start: usize = 0;
    let mut done: bool = false;
    proof {
        assert(views(parts@) =~= Seq::<Seq<u8>>::empty());
    }
    while !done
        invariant
            start <= bytes@.len(),
            !done ==> parts_of(bytes@) == views(parts@) + parts_from(bytes@, start as int),
            done ==> parts_of(bytes@) == views(parts@) && parts@.len() >= 1,
        decreases bytes@.len() - start + if done { 0int } else { 2int },
    {
        let cut: usize = find_separator(bytes, start);
        let ghost before = parts@;
        proof {
            lemma_next_separator(bytes@, start as int);
        }
        if cut < bytes.len() {
            parts.push(slice_to_vec(slice_subrange(bytes, start, cut)));
            proof {
                assert(views(parts@) =~= views(before) + seq![bytes@.subrange(start as int, cut as int)]);
                assert(parts_of(bytes@) =~= views(parts@) + parts_from(bytes@, cut + 2));
            }
            start = cut + 2;
        } else {
            parts.push(slice_to_vec(slice_subrange(bytes, start, bytes.len())));
            proof {
                assert(views(parts@) =~= views(before) + seq![
                    bytes@.subrange(start as int, bytes@.len() as int),
                ]);
            }
            done = true;
        }
    }
    parts
}

/// The lower-case form of an ASCII letter; any other byte as it is.
pub open spec fn lower(byte: u8) -> u8 {
    if 65 <= byte <= 90 {
        (byte + 32) as u8
    } else {
        byte
    }
}

/// Whether `part` spells `name` when letter case is ignored.
pub open spec fn spells(part: Seq<u8>, name: Seq<char>) -> bool {
    &&& part.len() == name.len()
    &&& forall|i: int| 0 <= i < part.len() ==> lower(#[trigger] part[i]) == name[i] as u8
}

/// Compares `part` with a lower-case ASCII `name`, ignoring letter case.
fn spells_name(part: &[u8], name: &str) -> (r: bool)
    requires
        name.is_ascii(),
    ensures
        r == spells(part@, name@),
{
    broadcast use vstd::string::is_ascii_spec_bytes;

    let target = name.as_bytes();
    if part.len() != target.len() {
        return false;
    }
    let mut i: usize = 0;
    while i < part.len()
        invariant
            i <= part@.len(),
            part@.len() == target@.len(),
            target@.len() == name@.len(),
            forall|j: int| 0 <= j < target@.len() ==> #[trigger] target@[j] == name@[j] as u8,
            forall|j: int| 0 <= j < i ==> lower(#[trigger] part@[j]) == name@[j] as u8,
        decreases part@.len() - i,
    {
        let byte: u8 = part[i];
        let folded: u8 = if 65 <= byte && byte <= 90 {
            byte + 32
        } else {
            byte
        };
        if folded != target[i] {
            assert(lower(part@[i as int]) != name@[i as int] as u8);
            return false;
        }
        i = i + 1;
    }
    true
}

/// Calls `String::from_utf8`, which succeeds where the bytes are valid
/// UTF-8 and then holds exactly those bytes. Trusted.
#[verifier::external_body]
fn string_from_utf8(bytes: Vec<u8>) -> (r: Option<String>)
    ensures
        r is Some <==> vstd::utf8::valid_utf8(bytes@),
        r matches Some(text) ==> vstd::utf8::encode_utf8(text@) == bytes@,
{
    match String::from_utf8(bytes) {
        Ok(text) => Some(text),
        Err(_) => None,
    }
}

/// What a message asks the server to do.
#[derive(Debug, PartialEq, Eq, Clone, Copy, Structural)]
pub enum ServerAction {
    CreateProcessor,
    StartProcessor,
    StopProcessor,
    DeleteProcessor,
    ConnectProcessors,
    DisconnectProcessors,
    DeleteConnection,
    GetProcessorStatus,
}

impl ServerAction {
    /// The action that `part` names, letter case ignored.
    pub open spec fn named(part: Seq<u8>) -> Option<ServerAction> {
        if spells(part, "createprocessor"@) {
            Some(ServerAction::CreateProcessor)
        } else if spells(part, "startprocessor"@) {
            Some(ServerAction::StartProcessor)
        } else if spells(part, "stopprocessor"@) {
            Some(ServerAction::StopProcessor)
        } else if spells(part, "deleteprocessor"@) {
            Some(ServerAction::DeleteProcessor)
        } else if spells(part, "connectprocessors"@) {
            Some(ServerAction::ConnectProcessors)
        } else if spells(part, "disconnectprocessors"@) {
            Some(ServerAction::DisconnectProcessors)
        } else if spells(part, "deleteconnection"@) {
            Some(ServerAction::DeleteConnection)
        } else if spells(part, "getprocessorstatus"@) {
            Some(ServerAction::GetProcessorStatus)
        } else {
            None
        }
    }

    /// Reads an action from the bytes of its name.
    pub fn from_bytes(action: &[u8]) -> (r: Option<ServerAction>)
        ensures
            r == ServerAction::named(action@),
    {
        proof {
            reveal_strlit("createprocessor");
            reveal_strlit("startprocessor");
            reveal_strlit("stopprocessor");
            reveal_strlit("deleteprocessor");
            reveal_strlit("connectprocessors");
            reveal_strlit("disconnectprocessors");
            reveal_strlit("deleteconnection");
            reveal_strlit("getprocessorstatus");
        }
        if spells_name(action, "createprocessor") {
            Some(ServerAction::CreateProcessor)
        } else if spells_name(action, "startprocessor") {
            Some(ServerAction::StartProcessor)
        } else if spells_name(action, "stopprocessor") {
            Some(ServerAction::StopProcessor)
        } else if spells_name(action, "deleteprocessor") {
            Some(ServerAction::DeleteProcessor)
        } else if spells_name(action, "connectprocessors") {
            Some(ServerAction::ConnectProcessors)
        } else if spells_name(action, "disconnectprocessors") {
            Some(ServerAction::DisconnectProcessors)
        } else if spells_name(action, "deleteconnection") {
            Some(ServerAction::DeleteConnection)
        } else if spells_name(action, "getprocessorstatus") {
            Some(ServerAction::GetProcessorStatus)
        } else {
            None
        }
    }

    /// Reads an action from its name.
    pub fn from_name(action: &str) -> (r: Option<ServerAction>)
        ensures
            r == ServerAction::named(vstd::utf8::encode_utf8(action@)),
    {
        ServerAction::from_bytes(action.as_bytes())
    }
}

/// The processor types that a message can name.
#[derive(Debug, PartialEq, Eq, Clone, Copy, Structural)]
pub enum ProcessorType {
    AddOne,
    RandomNumberGenerator,
    UpperCase,
}

impl ProcessorType {
    /// The name of the type, in lower case.
    pub open spec fn name(self) -> Seq<char> {
        match self {
            ProcessorType::AddOne => "add_one"@,
            ProcessorType::RandomNumberGenerator => "random_number_generator"@,
            ProcessorType::UpperCase => "uppercase"@,
        }
    }

    /// The type that `part` names, letter case ignored.
    pub open spec fn named(part: Seq<u8>) -> Option<ProcessorType> {
        if spells(part, ProcessorType::AddOne.name()) {
            Some(ProcessorType::AddOne)
        } else if spells(part, ProcessorType::RandomNumberGenerator.name()) {
            Some(ProcessorType::RandomNumberGenerator)
        } else if spells(part, ProcessorType::UpperCase.name()) {
            Some(ProcessorType::UpperCase)
        } else {
            None
        }
    }

    /// Reads a processor type from its name.
    pub fn from_name(processor_type: &str) -> (r: Option<ProcessorType>)
        ensures
            r == ProcessorType::named(vstd::utf8::encode_utf8(processor_type@)),
    {
        proof {
            reveal_strlit("add_one");
            reveal_strlit("random_number_generator");
            reveal_strlit("uppercase");
        }
        let bytes = processor_type.as_bytes();
        if spells_name(bytes, "add_one") {
            Some(ProcessorType::AddOne)
        } else if spells_name(bytes, "random_number_generator") {
            Some(ProcessorType::RandomNumberGenerator)
        } else if spells_name(bytes, "uppercase") {
            Some(ProcessorType::UpperCase)
        } else {
            None
        }
    }

    /// Writes the name of the type, which `from_name` reads back.
    pub fn to_string(&self) -> (r: String)
        ensures
            r@ == self.name(),
    {
        match self {
            ProcessorType::AddOne => String::from_str("add_one"),
            ProcessorType::RandomNumberGenerator => String::from_str("random_number_generator"),
            ProcessorType::UpperCase => String::from_str("uppercase"),
        }
    }
}

/// A message of the line protocol: the action, then its arguments.
pub struct ServerMessage {
    pub action: ServerAction,
    pub sub_commands: Vec<String>,
}

/// Whether `bytes` are a message: at least two parts, of which the first
/// names an action and every other is valid UTF-8.
pub open spec fn is_message(bytes: Seq<u8>) -> bool {
    let parts = parts_of(bytes);
    &&& parts.len() >= 2
    &&& ServerAction::named(parts[0]) is Some
    &&& forall|i: int| 1 <= i < parts.len() ==> vstd::utf8::valid_utf8(#[trigger] parts[i])
}

impl ServerMessage {
    /// Whether this message is what `bytes` say: the action that the first
    /// part names, and one argument for every further part, in order, made
    /// of that part's bytes.
    pub open spec fn says(self, bytes: Seq<u8>) -> bool {
        let parts = parts_of(bytes);
        &&& ServerAction::named(parts[0]) == Some(self.action)
        &&& self.sub_commands@.len() == parts.len() - 1
        &&& forall|i: int|
            0 <= i < self.sub_commands@.len() ==> vstd::utf8::encode_utf8(
                #[trigger] self.sub_commands@[i]@,
            ) == parts[i + 1]
    }

    /// Reads a message, or nothing where the bytes are none.
    pub fn try_parse(message_buffer: &[u8]) -> (r: Option<ServerMessage>)
        ensures
            r is Some <==> is_message(message_buffer@),
            r matches Some(message) ==> message.says(message_buffer@),
    {
        let parts = split_message(message_buffer);
        if parts.len() < 2 {
            return None;
        }
        let action = match ServerAction::from_bytes(parts[0].as_slice()) {
            Some(action) => action,
            None => {
                return None;
            },
        };
        let mut sub_commands: Vec<String> = Vec::new();
        let mut i: usize = 1;
        while i < parts.len()
            invariant
                1 <= i <= parts@.len(),
                views(parts@) == parts_of(message_buffer@),
                sub_commands@.len() == i - 1,
                forall|j: int| 1 <= j < i ==> vstd::utf8::valid_utf8(#[trigger] parts_of(message_buffer@)[j]),
                forall|j: int|
                    0 <= j < sub_commands@.len() ==> vstd::utf8::encode_utf8(
                        #[trigger] sub_commands@[j]@,
                    ) == parts_of(message_buffer@)[j + 1],
            decreases parts@.len() - i,
        {
            assert(views(parts@)[i as int] == parts@[i as int]@);
            match string_from_utf8(slice_to_vec(parts[i].as_slice())) {
                Some(text) => {
                    sub_commands.push(text);
                },
                None => {
                    assert(!vstd::utf8::valid_utf8(parts_of(message_buffer@)[i as int]));
                    return None;
                },
            }
            i = i + 1;
        }
        assert(views(parts@)[0] == parts@[0]@);
        Some(ServerMessage { action, sub_commands })
    }

    /// Reads a message.
    pub fn parse(message_buffer: &[u8]) -> (r: ServerMessage)
        requires
            is_message(message_buffer@),
        ensures
            r.says(message_buffer@),
    {
        ServerMessage::try_parse(message_buffer).unwrap()
    }
}

} // verus!
