use pioki::keeping::NewKeepAndPassAlongLog;
use pioki::passing::{PassAction, PassEvent, PassPost, PassStage};

#[test]
fn pass_along_commits_after_all_steps() {
    let (m, a) = PassPost::new("alice".to_string(), 4);
    assert_eq!(a, PassAction::RemoveKeepers);
    let (m, a) = m.step(PassEvent::KeepersRemoved(Some(1)));
    assert_eq!(a, PassAction::RestoreQuota);
    let (m, a) = m.step(PassEvent::QuotaRestored(true));
    assert_eq!(
        a,
        PassAction::InsertLog(NewKeepAndPassAlongLog {
            pioki_id: "alice".to_string(),
            post_id: 4,
            is_kept: false
        })
    );
    let (m, a) = m.step(PassEvent::PassLogged(true));
    assert_eq!(a, PassAction::Commit);
    assert_eq!(m.stage, PassStage::Done);
}

#[test]
fn pass_along_rolled_back_when_nothing_kept() {
    let (m, _) = PassPost::new("alice".to_string(), 4);
    let (m, a) = m.step(PassEvent::KeepersRemoved(Some(0)));
    assert_eq!(a, PassAction::Rollback);
    assert_eq!(m.stage, PassStage::Done);
    let (m, _) = PassPost::new("alice".to_string(), 4);
    let (_, a) = m.step(PassEvent::KeepersRemoved(None));
    assert_eq!(a, PassAction::Rollback);
}

#[test]
fn pass_along_rolled_back_when_a_write_fails() {
    let (m, _) = PassPost::new("alice".to_string(), 4);
    let (m, _) = m.step(PassEvent::KeepersRemoved(Some(2)));
    let (_, a) = m.step(PassEvent::QuotaRestored(false));
    assert_eq!(a, PassAction::Rollback);

    let (m, _) = PassPost::new("alice".to_string(), 4);
    let (m, _) = m.step(PassEvent::KeepersRemoved(Some(2)));
    let (m, _) = m.step(PassEvent::QuotaRestored(true));
    let (m, a) = m.step(PassEvent::PassLogged(false));
    assert_eq!(a, PassAction::Rollback);
    assert_eq!(m.stage, PassStage::Done);
}
