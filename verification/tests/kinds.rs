use santa::kind::{hex_label, WorkerType};
use santa::store::{same_text, ErrorKind, Operation};

#[test]
fn table_names() {
    assert_eq!(WorkerType::Elf.table_name(), "elves");
    assert_eq!(WorkerType::Reindeer.table_name(), "reindeer");
}

#[test]
fn santa_commands() {
    assert_eq!(WorkerType::Reindeer.santa_command(), "let's deliver toys");
    assert_eq!(WorkerType::Elf.santa_command(), "let's meet in my study");
}

#[test]
fn announcements() {
    assert_eq!(WorkerType::Reindeer.announcement(), "Ho! Ho! Ho! let's deliver toys");
    assert_eq!(WorkerType::Elf.announcement(), "Ho! Ho! Ho! let's meet in my study");
}

#[test]
fn work_descriptions() {
    assert_eq!(WorkerType::Elf.describe_work("1f3a"), "Elf 1f3a meeting in the study");
    assert_eq!(WorkerType::Reindeer.describe_work("b"), "Reindeer b delivering toys");
    assert_eq!(WorkerType::Reindeer.describe_work(""), "Reindeer  delivering toys");
}

#[test]
fn kinds_are_read_from_table_names() {
    assert_eq!(WorkerType::from("elves"), Ok(WorkerType::Elf));
    assert_eq!(WorkerType::from("reindeer"), Ok(WorkerType::Reindeer));
    for kind in [WorkerType::Elf, WorkerType::Reindeer] {
        assert_eq!(WorkerType::from(kind.table_name()), Ok(kind));
    }
}

#[test]
fn other_names_are_the_wrong_shape() {
    for name in ["", "elf", "Elves", "reindeers", "santa", "elves "] {
        assert_eq!(WorkerType::from(name), Err(ErrorKind::UnexpectedResponseShape));
    }
}

#[test]
fn labels_are_lower_case_hex_without_leading_zeros() {
    assert_eq!(hex_label(0), "0");
    assert_eq!(hex_label(10), "a");
    assert_eq!(hex_label(16), "10");
    assert_eq!(hex_label(0x0abc), "abc");
    assert_eq!(hex_label(0xbeef), "beef");
    assert_eq!(hex_label(u16::MAX), "ffff");
}

#[test]
fn labels_agree_with_std_formatting() {
    for tag in 0..=u16::MAX {
        assert_eq!(hex_label(tag), format!("{:x}", tag));
    }
}

#[test]
fn texts_are_compared_whole() {
    assert!(same_text("abc", "abc"));
    assert!(same_text("", ""));
    assert!(!same_text("abc", "abd"));
    assert!(!same_text("abc", "ab"));
}

#[test]
fn operations_have_the_store_names() {
    assert_eq!(Operation::Reset.name(), "santa:reset");
    assert_eq!(Operation::NewGroupReady.name(), "santa:newGroupReady");
    assert_eq!(Operation::DispatchGroup.name(), "santa:dispatchGroup");
    assert_eq!(Operation::ReleaseGroup.name(), "santa:releaseGroup");
    assert_eq!(Operation::InsertReadyWorker.name(), "workers:insertReadyWorker");
    assert_eq!(Operation::IsTimeToWork.name(), "workers:isTimeToWork");
    assert_eq!(Operation::IsTimeToVacation.name(), "workers:isTimeToVacation");
    assert_eq!(Operation::MarkBackFromVacation.name(), "workers:markBackFromVacation");
    assert_eq!(Operation::WorkDone.name(), "workers:workDone");
    assert_eq!(Operation::GetSpeeds.name(), "speed:getSpeeds");
}

#[test]
fn queries_and_mutations() {
    assert!(Operation::NewGroupReady.subscribes());
    assert!(Operation::IsTimeToWork.subscribes());
    assert!(Operation::IsTimeToVacation.subscribes());
    assert!(Operation::GetSpeeds.subscribes());
    assert!(!Operation::Reset.subscribes());
    assert!(!Operation::DispatchGroup.subscribes());
    assert!(!Operation::ReleaseGroup.subscribes());
    assert!(!Operation::InsertReadyWorker.subscribes());
    assert!(!Operation::MarkBackFromVacation.subscribes());
    assert!(!Operation::WorkDone.subscribes());
}
