use mconv::formats::MediaCategory;
use mconv::ui::convert::{ConvertAction, ConvertAnswer, ConvertFlow, ConvertStage, StopReason};

fn step(flow: &mut ConvertFlow, answer: ConvertAnswer) -> ConvertAction {
    assert!(flow.accepts(&answer));
    flow.next(answer)
}

fn exts(list: &[&str]) -> Vec<String> {
    list.iter().map(|s| s.to_string()).collect()
}

fn stop_reason(a: ConvertAction) -> Option<StopReason> {
    match a {
        ConvertAction::Stop(r) => Some(r),
        _ => None,
    }
}

#[test]
fn flow_runs_after_yes() {
    let mut f = ConvertFlow::new(8);
    assert!(matches!(step(&mut f, ConvertAnswer::Folder(true)), ConvertAction::AskDepth));
    assert!(matches!(step(&mut f, ConvertAnswer::Choice(Some(1))), ConvertAction::Scan));
    assert!(f.recursive);
    assert!(matches!(
        step(&mut f, ConvertAnswer::Scanned(exts(&["mkv", "txt"]))),
        ConvertAction::AskSource
    ));
    assert!(matches!(step(&mut f, ConvertAnswer::Choice(Some(0))), ConvertAction::AskTarget));
    assert_eq!(f.category, MediaCategory::Video);
    assert_eq!(f.targets, vec!["mp4", "webm", "avi", "mov", "flv", "gif"]);
    assert!(matches!(step(&mut f, ConvertAnswer::Choice(Some(0))), ConvertAction::AskDeletion));
    assert_eq!(f.to_ext, "mp4");
    assert!(matches!(step(&mut f, ConvertAnswer::Choice(Some(1))), ConvertAction::FindFiles));
    assert!(matches!(step(&mut f, ConvertAnswer::Found(12)), ConvertAction::AskWorkers));
    assert!(matches!(step(&mut f, ConvertAnswer::Choice(Some(0))), ConvertAction::AskConfirm));
    assert_eq!(f.workers, 3);
    match step(&mut f, ConvertAnswer::Confirmed(Some(true))) {
        ConvertAction::Run { to_ext, category, delete_originals, workers } => {
            assert_eq!(to_ext, "mp4");
            assert_eq!(category, MediaCategory::Video);
            assert!(delete_originals);
            assert_eq!(workers, 3);
        }
        _ => panic!("expected the conversion to run"),
    }
    assert_eq!(f.stage, ConvertStage::Done);
    assert!(!f.accepts(&ConvertAnswer::Confirmed(Some(true))));
}

#[test]
fn flow_stops_on_cancel_and_decline() {
    let mut f = ConvertFlow::new(4);
    assert_eq!(stop_reason(step(&mut f, ConvertAnswer::Folder(false))), Some(StopReason::Cancelled));

    let mut f = ConvertFlow::new(4);
    step(&mut f, ConvertAnswer::Folder(true));
    assert_eq!(stop_reason(step(&mut f, ConvertAnswer::Choice(None))), Some(StopReason::Cancelled));

    let mut f = ConvertFlow::new(4);
    step(&mut f, ConvertAnswer::Folder(true));
    step(&mut f, ConvertAnswer::Choice(Some(0)));
    assert!(!f.recursive);
    step(&mut f, ConvertAnswer::Scanned(exts(&["WAV"])));
    step(&mut f, ConvertAnswer::Choice(Some(0)));
    assert_eq!(f.category, MediaCategory::Audio);
    assert!(!f.targets.contains(&"wav"));
    step(&mut f, ConvertAnswer::Choice(Some(0)));
    assert_eq!(f.to_ext, "mp3");
    step(&mut f, ConvertAnswer::Choice(Some(0)));
    assert!(!f.delete_originals);
    step(&mut f, ConvertAnswer::Found(2));
    step(&mut f, ConvertAnswer::Choice(Some(3)));
    assert_eq!(f.workers, 1);
    assert_eq!(stop_reason(step(&mut f, ConvertAnswer::Confirmed(Some(false)))), Some(StopReason::Declined));

    let mut f = ConvertFlow::new(4);
    step(&mut f, ConvertAnswer::Folder(true));
    step(&mut f, ConvertAnswer::Choice(Some(0)));
    step(&mut f, ConvertAnswer::Scanned(exts(&["png"])));
    step(&mut f, ConvertAnswer::Choice(Some(0)));
    step(&mut f, ConvertAnswer::Choice(Some(1)));
    step(&mut f, ConvertAnswer::Choice(Some(0)));
    step(&mut f, ConvertAnswer::Found(1));
    step(&mut f, ConvertAnswer::Choice(Some(0)));
    assert_eq!(stop_reason(step(&mut f, ConvertAnswer::Confirmed(None))), Some(StopReason::Declined));
}

#[test]
fn flow_stops_when_nothing_to_convert() {
    let mut f = ConvertFlow::new(2);
    step(&mut f, ConvertAnswer::Folder(true));
    step(&mut f, ConvertAnswer::Choice(Some(0)));
    assert_eq!(stop_reason(step(&mut f, ConvertAnswer::Scanned(Vec::new()))), Some(StopReason::NoFiles));

    let mut f = ConvertFlow::new(2);
    step(&mut f, ConvertAnswer::Folder(true));
    step(&mut f, ConvertAnswer::Choice(Some(0)));
    step(&mut f, ConvertAnswer::Scanned(exts(&["mp4", "txt"])));
    assert!(!f.accepts(&ConvertAnswer::Choice(Some(2))));
    assert_eq!(stop_reason(step(&mut f, ConvertAnswer::Choice(Some(1)))), Some(StopReason::UnknownFormat));

    let mut f = ConvertFlow::new(2);
    step(&mut f, ConvertAnswer::Folder(true));
    step(&mut f, ConvertAnswer::Choice(Some(0)));
    step(&mut f, ConvertAnswer::Scanned(exts(&["srt"])));
    step(&mut f, ConvertAnswer::Choice(Some(0)));
    step(&mut f, ConvertAnswer::Choice(Some(0)));
    step(&mut f, ConvertAnswer::Choice(Some(0)));
    assert_eq!(stop_reason(step(&mut f, ConvertAnswer::Found(0))), Some(StopReason::NoMatches));
}
