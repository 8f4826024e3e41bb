//! The two kinds of worker, and the words that go with each.
use crate::store::{same_text, ErrorKind};
use vstd::prelude::*;
use vstd::string::*;

verus! {

/// The kind of a worker, fixed when the worker is made.
#[derive(Clone, Copy, Debug, PartialEq, Eq, Structural)]
pub enum WorkerType {
    Reindeer,
    Elf,
}

impl WorkerType {
    /// The name of the kind's table in the store, which is also the name of
    /// its jobs.
    pub open spec fn table_name_text(self) -> Seq<char> {
        match self {
            WorkerType::Elf => "elves"@,
            WorkerType::Reindeer => "reindeer"@,
        }
    }

    /// What the dispatcher says to a group of the kind.
    pub open spec fn santa_command_text(self) -> Seq<char> {
        match self {
            WorkerType::Reindeer => "let's deliver toys"@,
            WorkerType::Elf => "let's meet in my study"@,
        }
    }

    /// The dispatcher's announcement to a group of the kind.
    pub open spec fn announcement_text(self) -> Seq<char> {
        "Ho! Ho! Ho! "@ + self.santa_command_text()
    }

    /// What a worker of the kind with the given label reports of its work.
    pub open spec fn work_text(self, label: Seq<char>) -> Seq<char> {
        match self {
            WorkerType::Elf => "Elf "@ + label + " meeting in the study"@,
            WorkerType::Reindeer => "Reindeer "@ + label + " delivering toys"@,
        }
    }

    /// The kind that a text names, if it names one: a kind is named by the
    /// name of its table.
    pub open spec fn named(text: Seq<char>) -> Option<WorkerType> {
        if text == "elves"@ {
            Some(WorkerType::Elf)
        } else if text == "reindeer"@ {
            Some(WorkerType::Reindeer)
        } else {
            None
        }
    }

    /// A text names a kind exactly if it is the name of that kind's table.
    pub proof fn lemma_named_by_table_name(text: Seq<char>, kind: WorkerType)
        ensures
            Self::named(text) == Some(kind) <==> text == kind.table_name_text(),
    {
        reveal_strlit("elves");
        reveal_strlit("reindeer");
        assert("elves"@.len() != "reindeer"@.len());
    }

    /// Reads a kind from the name of its table. A text that names no kind is
    /// an answer of the wrong shape.
    pub fn from(value: &str) -> (kind: Result<WorkerType, ErrorKind>)
        ensures
            kind == (match Self::named(value@) {
                Some(named) => Ok::<WorkerType, ErrorKind>(named),
                None => Err(ErrorKind::UnexpectedResponseShape),
            }),
    {
        if same_text(value, "elves") {
            Ok(WorkerType::Elf)
        } else if same_text(value, "reindeer") {
            Ok(WorkerType::Reindeer)
        } else {
            Err(ErrorKind::UnexpectedResponseShape)
        }
    }

    /// The line that a worker of this kind reports when it works.
    pub fn describe_work(&self, id: &str) -> (line: String)
        ensures
            line@ == self.work_text(id@),
    {
        match self {
            WorkerType::Elf => {
                String::from_str("Elf ").concat(id).concat(" meeting in the study")
            },
            WorkerType::Reindeer => {
                String::from_str("Reindeer ").concat(id).concat(" delivering toys")
            },
        }
    }

    /// What the dispatcher says to a group of this kind.
    pub fn santa_command(&self) -> (command: &'static str)
        ensures
            command@ == self.santa_command_text(),
    {
        match self {
            WorkerType::Reindeer => "let's deliver toys",
            WorkerType::Elf => "let's meet in my study",
        }
    }

    /// The dispatcher's whole announcement to a group of this kind.
    pub fn announcement(&self) -> (line: String)
        ensures
            line@ == self.announcement_text(),
    {
        String::from_str("Ho! Ho! Ho! ").concat(self.santa_command())
    }

    /// The name of this kind's table in the store.
    pub fn table_name(&self) -> (name: &'static str)
        ensures
            name@ == self.table_name_text(),
    {
        match self {
            WorkerType::Elf => "elves",
            WorkerType::Reindeer => "reindeer",
        }
    }
}

/// The text of one hexadecimal digit, in lower case.
pub open spec fn hex_digit_text(digit: int) -> Seq<char> {
    if digit == 0 {
        "0"@
    } else if digit == 1 {
        "1"@
    } else if digit == 2 {
        "2"@
    } else if digit == 3 {
        "3"@
    } else if digit == 4 {
        "4"@
    } else if digit == 5 {
        "5"@
    } else if digit == 6 {
        "6"@
    } else if digit == 7 {
        "7"@
    } else if digit == 8 {
        "8"@
    } else if digit == 9 {
        "9"@
    } else if digit == 10 {
        "a"@
    } else if digit == 11 {
        "b"@
    } else if digit == 12 {
        "c"@
    } else if digit == 13 {
        "d"@
    } else if digit == 14 {
        "e"@
    } else {
        "f"@
    }
}

/// A number in hexadecimal, in lower case and without leading zeros.
pub open spec fn hex_text(number: nat) -> Seq<char>
    decreases number,
{
    if number < 16 {
        hex_digit_text(number as int)
    } else {
        hex_text(number / 16) + hex_digit_text((number % 16) as int)
    }
}

fn hex_digit(digit: u16) -> (text: &'static str)
    requires
        digit < 16,
    ensures
        text@ == hex_digit_text(digit as int),
{
    match digit {
        0 => "0",
        1 => "1",
        2 => "2",
        3 => "3",
        4 => "4",
        5 => "5",
        6 => "6",
        7 => "7",
        8 => "8",
        9 => "9",
        10 => "a",
        11 => "b",
        12 => "c",
        13 => "d",
        14 => "e",
        _ => "f",
    }
}

/// Writes a worker's tag as its label: the tag in hexadecimal.
pub fn hex_label(tag: u16) -> (label: String)
    ensures
        label@ == hex_text(tag as nat),
    decreases tag,
{
    if tag < 16 {
        String::from_str(hex_digit(tag))
    } else {
        let head = hex_label(tag / 16);
        head.concat(hex_digit(tag % 16))
    }
}

} // verus!
