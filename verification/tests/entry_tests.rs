use millennium_run::entry::{notice_lines, EntryNext, EntryPhase};
use millennium_run::user::Language;

#[test]
fn entry_phases_run_in_order_then_leave() {
    let mut phase = EntryPhase::default();
    assert_eq!(phase, EntryPhase::FadeIn);
    let mut seen = vec![phase.index()];
    loop {
        match phase.next() {
            EntryNext::Phase(p) => {
                phase = p;
                seen.push(p.index());
            }
            EntryNext::Leave => break,
        }
    }
    assert_eq!(seen, vec![0, 1, 2, 3, 4, 5]);
    assert_eq!(phase, EntryPhase::DisappearLogo);
}

#[test]
fn entry_phase_durations_and_drawing() {
    assert_eq!(EntryPhase::FadeIn.duration_ms(), 500);
    assert_eq!(EntryPhase::DisplayNotify.duration_ms(), 3000);
    assert_eq!(EntryPhase::DisappearNotify.duration_ms(), 500);
    assert_eq!(EntryPhase::AppearLogo.duration_ms(), 500);
    assert_eq!(EntryPhase::DisplayLogo.duration_ms(), 3000);
    assert_eq!(EntryPhase::DisappearLogo.duration_ms(), 500);
    assert!(!EntryPhase::DisappearNotify.shows_logo());
    assert!(EntryPhase::AppearLogo.shows_logo());
}

#[test]
fn korean_notice() {
    let (title, message) = notice_lines(Language::Korean);
    assert_eq!(title, "알 림");
    assert_eq!(message, "이 게임은 Blue Archive의 팬 제작 게임입니다.");
}
