//! Ready-made telegram sequences for diagnostics, and the parsing of a
//! command file's lines (space-separated hexadecimal bytes) into a sequence.

use vstd::prelude::*;

use crate::sequence::EventSequence;
use crate::telegram::{spec_decode, Command, Telegram, TelegramView};

verus! {

/// The broadcast/wildcard serial number used by tooling.
pub const BROADCAST_SERIAL: u32 = 0xFFFFFFFF;

/// A single greeting read, sent with a one-second delay setting.
pub fn greet_sequence() -> (r: EventSequence)
    ensures
        r.wf(),
        r.delay == 1000,
        r.sequence@.len() == 1,
        r.sequence@[0]@ == (TelegramView {
            device_type: 3793,
            serial_number: BROADCAST_SERIAL,
            command: Command::Read,
            subcommand: 204,
            data: Seq::empty(),
        }),
{
    let telegram = Telegram {
        device_type: 3793,
        serial_number: BROADCAST_SERIAL,
        command: Command::Read,
        subcommand: 204,
        data: Vec::new(),
    };
    let mut sequence: Vec<Telegram> = Vec::new();
    sequence.push(telegram);
    EventSequence { sequence, delay: 1000 }
}

/// `num` copies of a small broadcast read, paced by `delay` milliseconds.
pub fn small_sequence(num: usize, delay: u64) -> (r: EventSequence)
    ensures
        r.wf(),
        r.delay == delay,
        r.sequence@.len() == num,
        forall|i: int|
            0 <= i < num ==> (#[trigger] r.sequence@[i])@ == (TelegramView {
                device_type: 3730,
                serial_number: BROADCAST_SERIAL,
                command: Command::Read,
                subcommand: 204,
                data: Seq::empty(),
            }),
{
    let mut sequence: Vec<Telegram> = Vec::new();
    let mut i: usize = 0;
    while i < num
        invariant
            i <= num,
            sequence@.len() == i,
            forall|j: int|
                0 <= j < i ==> (#[trigger] sequence@[j])@ == (TelegramView {
                    device_type: 3730,
                    serial_number: BROADCAST_SERIAL,
                    command: Command::Read,
                    subcommand: 204,
                    data: Seq::empty(),
                }),
        decreases num - i,
    {
        sequence.push(
            Telegram {
                device_type: 3730,
                serial_number: BROADCAST_SERIAL,
                command: Command::Read,
                subcommand: 204,
                data: Vec::new(),
            },
        );
        i += 1;
    }
    EventSequence { sequence, delay }
}

/// `num` copies of a read that provokes a large response, paced by `delay`
/// milliseconds.
pub fn big_resp_sequence(num: usize, delay: u64) -> (r: EventSequence)
    ensures
        r.wf(),
        r.delay == delay,
        r.sequence@.len() == num,
        forall|i: int|
            0 <= i < num ==> (#[trigger] r.sequence@[i])@ == (TelegramView {
                device_type: 3730,
                serial_number: BROADCAST_SERIAL,
                command: Command::Read,
                subcommand: 206,
                data: seq![88u8, 0u8, 0u8, 1u8],
            }),
{
    let mut sequence: Vec<Telegram> = Vec::new();
    let mut i: usize = 0;
    while i < num
        invariant
            i <= num,
            sequence@.len() == i,
            forall|j: int|
                0 <= j < i ==> (#[trigger] sequence@[j])@ == (TelegramView {
                    device_type: 3730,
                    serial_number: BROADCAST_SERIAL,
                    command: Command::Read,
                    subcommand: 206,
                    data: seq![88u8, 0u8, 0u8, 1u8],
                }),
        decreases num - i,
    {
        let mut data: Vec<u8> = Vec::new();
        data.push(88);
        data.push(0);
        data.push(0);
        data.push(1);
        assert(data@ =~= seq![88u8, 0u8, 0u8, 1u8]);
        sequence.push(
            Telegram {
                device_type: 3730,
                serial_number: BROADCAST_SERIAL,
                command: Command::Read,
                subcommand: 206,
                data,
            },
        );
        i += 1;
    }
    EventSequence { sequence, delay }
}

/// The value of an ASCII hexadecimal digit, upper or lower case.
pub open spec fn spec_hex_digit(b: u8) -> Option<u8> {
    if 0x30 <= b <= 0x39 {
        Some((b - 0x30) as u8)
    } else if 0x61 <= b <= 0x66 {
        Some((b - 0x61 + 10) as u8)
    } else if 0x41 <= b <= 0x46 {
        Some((b - 0x41 + 10) as u8)
    } else {
        None
    }
}

/// The byte a one- or two-digit hexadecimal token denotes.
pub open spec fn spec_hex_byte(token: Seq<u8>) -> Option<u8> {
    if token.len() == 1 {
        spec_hex_digit(token[0])
    } else if token.len() == 2 {
        match (spec_hex_digit(token[0]), spec_hex_digit(token[1])) {
            (Some(hi), Some(lo)) => Some((hi * 16 + lo) as u8),
            _ => None,
        }
    } else {
        None
    }
}

/// The value of an ASCII hexadecimal digit, upper or lower case.
pub fn hex_digit(b: u8) -> (r: Option<u8>)
    ensures
        r == spec_hex_digit(b),
{
    if 0x30 <= b && b <= 0x39 {
        Some(b - 0x30)
    } else if 0x61 <= b && b <= 0x66 {
        Some(b - 0x61 + 10)
    } else if 0x41 <= b && b <= 0x46 {
        Some(b - 0x41 + 10)
    } else {
        None
    }
}

/// Parses a one- or two-digit hexadecimal token.
pub fn hex_byte(token: &[u8]) -> (r: Option<u8>)
    ensures
        r == spec_hex_byte(token@),
{
    if token.len() == 1 {
        hex_digit(token[0])
    } else if token.len() == 2 {
        match (hex_digit(token[0]), hex_digit(token[1])) {
            (Some(hi), Some(lo)) => Some(hi * 16 + lo),
            _ => None,
        }
    } else {
        None
    }
}

/// The line's space-separated tokens, `acc` being the token begun so far.
/// Splitting keeps empty tokens, as the original command files never hold
/// two adjacent spaces.
pub open spec fn spec_split_acc(line: Seq<u8>, acc: Seq<u8>) -> Seq<Seq<u8>>
    decreases line.len(),
{
    if line.len() == 0 {
        seq![acc]
    } else if line[0] == 0x20 {
        seq![acc] + spec_split_acc(line.drop_first(), Seq::empty())
    } else {
        spec_split_acc(line.drop_first(), acc.push(line[0]))
    }
}

/// The line split on single spaces.
pub open spec fn spec_split(line: Seq<u8>) -> Seq<Seq<u8>> {
    spec_split_acc(line, Seq::empty())
}

/// Splits a line on single spaces.
pub fn split_line(line: &[u8]) -> (r: Vec<Vec<u8>>)
    ensures
        r@.map_values(|t: Vec<u8>| t@) == spec_split(line@),
{
    let mut tokens: Vec<Vec<u8>> = Vec::new();
    let mut acc: Vec<u8> = Vec::new();
    let mut i: usize = 0;
    proof {
        assert(line@.skip(0) =~= line@);
        assert(tokens@.map_values(|t: Vec<u8>| t@) + spec_split_acc(line@, acc@) =~= spec_split(
            line@,
        ));
    }
    while i < line.len()
        invariant
            i <= line@.len(),
            spec_split(line@) == tokens@.map_values(|t: Vec<u8>| t@) + spec_split_acc(
                line@.skip(i as int),
                acc@,
            ),
        decreases line@.len() - i,
    {
        let b = line[i];
        proof {
            assert(line@.skip(i as int).drop_first() =~= line@.skip(i as int + 1));
            assert(line@.skip(i as int)[0] == line@[i as int]);
        }
        if b == 0x20 {
            let ghost old_tokens = tokens@;
            let ghost old_acc = acc@;
            tokens.push(acc);
            acc = Vec::new();
            proof {
                assert(tokens@.map_values(|t: Vec<u8>| t@) =~= old_tokens.map_values(
                    |t: Vec<u8>| t@,
                ).push(old_acc));
                assert(old_tokens.map_values(|t: Vec<u8>| t@) + (seq![old_acc] + spec_split_acc(
                    line@.skip(i as int + 1),
                    Seq::empty(),
                )) =~= tokens@.map_values(|t: Vec<u8>| t@) + spec_split_acc(
                    line@.skip(i as int + 1),
                    acc@,
                ));
            }
        } else {
            acc.push(b);
        }
        i += 1;
    }
    let ghost old_tokens = tokens@;
    let ghost old_acc = acc@;
    tokens.push(acc);
    proof {
        assert(line@.skip(line@.len() as int) =~= Seq::<u8>::empty());
        assert(tokens@.map_values(|t: Vec<u8>| t@) =~= old_tokens.map_values(
            |t: Vec<u8>| t@,
        ).push(old_acc));
        assert(old_tokens.map_values(|t: Vec<u8>| t@) + seq![old_acc] =~= tokens@.map_values(
            |t: Vec<u8>| t@,
        ));
    }
    tokens
}

/// The frame bytes a line denotes: each space-separated token parsed as a
/// hexadecimal byte, or nothing if any token is not one.
pub open spec fn spec_parse_line(line: Seq<u8>) -> Option<Seq<u8>> {
    let tokens = spec_split(line);
    if forall|i: int| 0 <= i < tokens.len() ==> (#[trigger] spec_hex_byte(tokens[i])) is Some {
        Some(Seq::new(tokens.len(), |i: int| spec_hex_byte(tokens[i])->Some_0))
    } else {
        None
    }
}

/// Parses a command-file line of space-separated hexadecimal bytes.
pub fn parse_frame_line(line: &[u8]) -> (r: Option<Vec<u8>>)
    ensures
        match r {
            Some(bytes) => spec_parse_line(line@) == Some(bytes@),
            None => spec_parse_line(line@) is None,
        },
{
    let tokens = split_line(line);
    let ghost toks = tokens@.map_values(|t: Vec<u8>| t@);
    let mut bytes: Vec<u8> = Vec::new();
    let mut i: usize = 0;
    while i < tokens.len()
        invariant
            i <= tokens@.len(),
            toks == tokens@.map_values(|t: Vec<u8>| t@),
            toks == spec_split(line@),
            bytes@.len() == i,
            forall|j: int|
                0 <= j < i ==> (#[trigger] spec_hex_byte(toks[j])) == Some(bytes@[j]),
        decreases tokens@.len() - i,
    {
        match hex_byte(tokens[i].as_slice()) {
            Some(b) => {
                bytes.push(b);
            },
            None => {
                proof {
                    assert(toks[i as int] == tokens@[i as int]@);
                    assert(spec_hex_byte(toks[i as int]) is None);
                }
                return None;
            },
        }
        i += 1;
    }
    proof {
        let expected = Seq::new(toks.len(), |j: int| spec_hex_byte(toks[j])->Some_0);
        assert(bytes@ =~= expected);
    }
    Some(bytes)
}

/// The telegram a command-file line denotes, its serial number replaced by
/// the broadcast serial: nothing if the line does not parse or its frame
/// does not decode.
pub open spec fn spec_prefab_telegram(line: Seq<u8>) -> Option<TelegramView> {
    match spec_parse_line(line) {
        None => None,
        Some(bytes) => match spec_decode(bytes) {
            Err(_) => None,
            Ok(t) => Some(TelegramView { serial_number: BROADCAST_SERIAL, ..t }),
        },
    }
}

/// Builds an `EventSequence` from the first `num` lines of a command file,
/// pacing it by `delay` milliseconds. Fails exactly when one of those lines
/// does not denote a decodable frame.
pub fn sequence_from_lines(lines: &Vec<Vec<u8>>, num: usize, delay: u64) -> (r: Option<
    EventSequence,
>)
    ensures
        match r {
            Some(s) => {
                let taken = if num <= lines@.len() {
                    num as int
                } else {
                    lines@.len() as int
                };
                &&& s.wf()
                &&& s.delay == delay
                &&& s.sequence@.len() == taken
                &&& forall|i: int|
                    0 <= i < taken ==> spec_prefab_telegram(lines@[i]@) == Some(
                        (#[trigger] s.sequence@[i])@,
                    )
            },
            None => exists|i: int|
                0 <= i < lines@.len() && i < num && (#[trigger] spec_prefab_telegram(lines@[i]@))
                    is None,
        },
{
    let taken = if num <= lines.len() {
        num
    } else {
        lines.len()
    };
    let mut sequence: Vec<Telegram> = Vec::new();
    let mut i: usize = 0;
    while i < taken
        invariant
            i <= taken,
            taken <= lines@.len(),
            taken <= num,
            sequence@.len() == i,
            forall|j: int|
                0 <= j < i ==> spec_prefab_telegram(lines@[j]@) == Some(
                    (#[trigger] sequence@[j])@,
                ) && (#[trigger] sequence@[j])@.wf(),
        decreases taken - i,
    {
        let bytes = match parse_frame_line(lines[i].as_slice()) {
            Some(b) => b,
            None => {
                proof {
                    assert(spec_prefab_telegram(lines@[i as int]@) is None);
                }
                return None;
            },
        };
        let mut telegram = match Telegram::from_bytes(bytes.as_slice()) {
            Ok(t) => t,
            Err(_) => {
                proof {
                    assert(spec_prefab_telegram(lines@[i as int]@) is None);
                }
                return None;
            },
        };
        let ghost decoded = telegram@;
        telegram.serial_number = BROADCAST_SERIAL;
        proof {
            assert(telegram@ =~= (TelegramView { serial_number: BROADCAST_SERIAL, ..decoded }));
            assert(telegram@.data.len() <= 244);
        }
        sequence.push(telegram);
        i += 1;
    }
    Some(EventSequence { sequence, delay })
}

} // verus!
