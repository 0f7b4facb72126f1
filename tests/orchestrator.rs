use iced_gif_maker::job::{Command, JobSpec, Message};
use iced_gif_maker::worker::{Action, Event, Input, Orchestrator, State, Stimulus};

fn spec(path: &str) -> JobSpec {
    JobSpec::with_standard_fps(path.to_string(), 480)
}

fn idle_orchestrator() -> Orchestrator {
    let mut o = Orchestrator::new();
    o.step(Stimulus::Activate);
    o
}

fn running_orchestrator() -> Orchestrator {
    let mut o = idle_orchestrator();
    o.step(Stimulus::Input(Input::NewTask(spec("first.mov"))));
    o
}

#[test]
fn activation_publishes_queue_once() {
    let mut o = Orchestrator::new();
    assert_eq!(o.state(), State::Starting);
    let acts = o.step(Stimulus::Activate);
    assert_eq!(acts.len(), 1);
    assert!(matches!(acts[0], Action::PublishReady));
    assert_eq!(o.state(), State::Idle);
    let again = o.step(Stimulus::Activate);
    assert!(again.is_empty());
    assert_eq!(o.state(), State::Idle);
}

#[test]
fn inputs_before_activation_are_refused() {
    let mut o = Orchestrator::new();
    let acts = o.step(Stimulus::Input(Input::Command(Command::Cancel)));
    assert_eq!(acts.len(), 1);
    assert!(matches!(acts[0], Action::Emit(Event::CommandRefused(Command::Cancel))));
    let acts = o.step(Stimulus::Input(Input::NewTask(spec("a.mov"))));
    assert_eq!(acts.len(), 1);
    match &acts[0] {
        Action::Emit(Event::TaskRefused(s)) => assert_eq!(s.video_path, "a.mov"),
        other => panic!("unexpected action {:?}", other),
    }
    assert_eq!(o.state(), State::Starting);
}

#[test]
fn commands_refused_while_idle() {
    let mut o = idle_orchestrator();
    for _ in 0..3 {
        let acts = o.step(Stimulus::Input(Input::Command(Command::Cancel)));
        assert_eq!(acts.len(), 1);
        assert!(matches!(acts[0], Action::Emit(Event::CommandRefused(Command::Cancel))));
        assert_eq!(o.state(), State::Idle);
    }
}

#[test]
fn new_task_starts_job_when_idle() {
    let mut o = idle_orchestrator();
    let acts = o.step(Stimulus::Input(Input::NewTask(spec("clip.mov"))));
    assert_eq!(acts.len(), 1);
    match &acts[0] {
        Action::StartJob(s) => {
            assert_eq!(s.video_path, "clip.mov");
            assert_eq!(s.width, 480);
        }
        other => panic!("unexpected action {:?}", other),
    }
    assert_eq!(o.state(), State::Running);
}

#[test]
fn further_tasks_refused_while_running() {
    let mut o = running_orchestrator();
    for name in ["b.mov", "c.mov", "d.mov"] {
        let acts = o.step(Stimulus::Input(Input::NewTask(spec(name))));
        assert_eq!(acts.len(), 1);
        match &acts[0] {
            Action::Emit(Event::TaskRefused(s)) => assert_eq!(s.video_path, name),
            other => panic!("unexpected action {:?}", other),
        }
        assert_eq!(o.state(), State::Running);
    }
    let acts = o.step(Stimulus::JobMessage(Message::Progress(250)));
    assert!(matches!(acts[0], Action::Emit(Event::Message(Message::Progress(250)))));
}

#[test]
fn commands_forwarded_while_running() {
    let mut o = running_orchestrator();
    let acts = o.step(Stimulus::Input(Input::Command(Command::Cancel)));
    assert_eq!(acts.len(), 1);
    assert!(matches!(acts[0], Action::Forward(Command::Cancel)));
    assert_eq!(o.state(), State::Running);
}

#[test]
fn messages_relayed_through_done_only() {
    let mut o = running_orchestrator();
    let acts = o.step(Stimulus::JobMessage(Message::VideoDuration(
        std::time::Duration::from_millis(12300),
    )));
    assert_eq!(acts.len(), 1);
    assert!(matches!(acts[0], Action::Emit(Event::Message(Message::VideoDuration(_)))));
    let acts = o.step(Stimulus::JobMessage(Message::Success(vec![1, 2, 3])));
    assert_eq!(acts.len(), 1);
    let acts = o.step(Stimulus::JobMessage(Message::Done));
    assert_eq!(acts.len(), 2);
    assert!(matches!(acts[0], Action::Emit(Event::Message(Message::Done))));
    assert!(matches!(acts[1], Action::ReleaseJob));
    assert_eq!(o.state(), State::Idle);
    let late = o.step(Stimulus::JobMessage(Message::Done));
    assert!(late.is_empty());
    let late = o.step(Stimulus::JobMessage(Message::Progress(1000)));
    assert!(late.is_empty());
}

#[test]
fn accepts_new_task_after_done() {
    let mut o = running_orchestrator();
    o.step(Stimulus::JobMessage(Message::Done));
    let acts = o.step(Stimulus::Input(Input::NewTask(spec("second.mov"))));
    assert_eq!(acts.len(), 1);
    assert!(matches!(acts[0], Action::StartJob(_)));
    assert_eq!(o.state(), State::Running);
}

#[test]
fn closed_channel_ends_job_without_done() {
    let mut o = running_orchestrator();
    let acts = o.step(Stimulus::JobClosed);
    assert_eq!(acts.len(), 1);
    assert!(matches!(acts[0], Action::ReleaseJob));
    assert_eq!(o.state(), State::Idle);
    let acts = o.step(Stimulus::JobClosed);
    assert!(acts.is_empty());
}

#[test]
fn job_spec_builders() {
    let s = JobSpec::with_standard_fps("v.mkv".to_string(), 320);
    assert_eq!(s.video_path, "v.mkv");
    assert_eq!(s.width, 320);
    assert!(s.ffmpeg_path.is_none());
    let s = s.ffmpeg_path("/opt/ffmpeg".to_string());
    assert_eq!(s.ffmpeg_path.as_deref(), Some("/opt/ffmpeg"));
    assert_eq!(s.width, 320);
    assert!(Message::Done.is_done());
    assert!(!Message::Progress(3).is_done());
}

fn emitted(o: &mut Orchestrator, stimuli: Vec<Stimulus>) -> Vec<String> {
    let mut out = Vec::new();
    for s in stimuli {
        for a in o.step(s) {
            out.push(format!("{:?}", a));
        }
    }
    out
}

#[test]
fn task_requests_while_running_only_add_refusals() {
    let trace = || {
        vec![
            Stimulus::Activate,
            Stimulus::Input(Input::NewTask(spec("j.mov"))),
            Stimulus::JobMessage(Message::Progress(100)),
            Stimulus::Input(Input::Command(Command::Cancel)),
            Stimulus::JobMessage(Message::Done),
        ]
    };
    let plain = emitted(&mut Orchestrator::new(), trace());
    let mut with_requests = trace();
    with_requests.insert(3, Stimulus::Input(Input::NewTask(spec("x.mov"))));
    with_requests.insert(2, Stimulus::Input(Input::NewTask(spec("y.mov"))));
    let mut o = Orchestrator::new();
    let extended = emitted(&mut o, with_requests);
    assert_eq!(o.state(), State::Idle);
    let refusals: Vec<&String> = extended.iter().filter(|a| a.contains("TaskRefused")).collect();
    assert_eq!(refusals.len(), 2);
    assert!(refusals[0].contains("y.mov"));
    assert!(refusals[1].contains("x.mov"));
    let rest: Vec<String> = extended
        .iter()
        .filter(|a| !a.contains("TaskRefused"))
        .cloned()
        .collect();
    assert_eq!(rest, plain);
    assert_eq!(extended.iter().filter(|a| a.contains("StartJob")).count(), 1);
}
