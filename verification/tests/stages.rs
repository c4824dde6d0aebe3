use moanmyip::pipeline::Pipeline;
use moanmyip::pipeline::Stage;

#[test]
fn successful_run_visits_every_stage_in_order() {
    let mut run = Pipeline::new();
    assert_eq!(run.stage(), Stage::Init);
    let order = [
        Stage::FetchedPage,
        Stage::ExtractedIp,
        Stage::Downloaded,
        Stage::Decoded,
        Stage::Playing,
        Stage::Done,
    ];
    for expected in order {
        run.advance();
        assert_eq!(run.stage(), expected);
    }
}

#[test]
fn failure_is_terminal() {
    let mut run = Pipeline::new();
    run.advance();
    run.fail();
    assert_eq!(run.stage(), Stage::Failed);
}

#[test]
fn failure_at_start_never_reaches_printing() {
    let mut run = Pipeline::new();
    run.fail();
    assert_ne!(run.stage(), Stage::ExtractedIp);
    assert_eq!(run.stage(), Stage::Failed);
}
