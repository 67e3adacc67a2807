use gst_mxl_rs::mxlsrc::audio::{
    AudioAction, AudioEvent, AudioPhase, BatchTimes, Pull, ReaderInfo, SamplesRead,
};
use gst_mxl_rs::mxlsrc::state::{AudioState, InitialTime, State};
use gst_mxl_rs::timing::Rational;

const RATE: Rational = Rational { numerator: 48000, denominator: 1 };

fn info(buffer_length: u32, head_index: u64) -> ReaderInfo {
    ReaderInfo { sample_rate: RATE, buffer_length, head_index }
}

struct Source {
    anchor: InitialTime,
    audio: AudioState,
    phase: AudioPhase,
    action: AudioAction,
}

impl Source {
    fn new() -> Source {
        let state = State::for_audio();
        let (phase, action) = AudioPhase::begin();
        Source { anchor: state.initial_info, audio: state.audio.unwrap(), phase, action }
    }

    fn tell(&mut self, event: AudioEvent) -> AudioAction {
        assert!(self.phase.check_step(&self.anchor, &self.audio, event));
        let (phase, action) = self.phase.step(&mut self.anchor, &mut self.audio, event);
        self.phase = phase;
        self.action = action;
        action
    }

    fn again(&mut self) {
        let (phase, action) = AudioPhase::begin();
        self.phase = phase;
        self.action = action;
    }

    /// Tells the source everything up to the buffer, and gives its time.
    fn finish(&mut self, times: BatchTimes, flow_time: u64) -> (u64, bool) {
        assert!(matches!(
            self.tell(AudioEvent::Samples(SamplesRead::Complete)),
            AudioAction::GetTimestamps { .. }
        ));
        assert_eq!(self.tell(AudioEvent::Timestamps(Some(times))), AudioAction::GetTime);
        let mut action = self.tell(AudioEvent::Time(flow_time));
        if let AudioAction::SleepFor { .. } = action {
            action = self.tell(AudioEvent::Slept);
        }
        let pts = match action {
            AudioAction::Allocate { pts } => pts,
            other => panic!("{:?}", other),
        };
        let discont = match self.tell(AudioEvent::Buffer(true)) {
            AudioAction::Fill { discont } => discont,
            other => panic!("{:?}", other),
        };
        assert_eq!(self.tell(AudioEvent::Filled(true)), AudioAction::Deliver);
        assert_eq!(self.phase, AudioPhase::Done);
        (pts, discont)
    }
}

const MS: BatchTimes = BatchTimes { end: 2_000_000, start: 1_000_000 };

#[test]
fn first_batches_follow_the_writer() {
    let mut source = Source::new();
    assert_eq!(source.action, AudioAction::GetInfo);
    assert_eq!(source.tell(AudioEvent::Info(Some(info(9600, 1000)))), AudioAction::GetRunningTime);
    assert_eq!(source.tell(AudioEvent::RunningTime(Some(700))), AudioAction::GetTime);
    assert_eq!(
        source.tell(AudioEvent::Time(5_000_000)),
        AudioAction::GetSamples { index: 952, count: 48 }
    );
    assert_eq!(source.anchor, InitialTime { mxl_index: 5_000_000, gst_time: 700 });
    assert_eq!(
        source.tell(AudioEvent::Samples(SamplesRead::Complete)),
        AudioAction::GetTimestamps { end: 1000, start: 952, rate: RATE }
    );
    assert_eq!(source.tell(AudioEvent::Timestamps(Some(MS))), AudioAction::GetTime);
    assert_eq!(source.anchor.mxl_index, 6_000_000);
    assert_eq!(source.tell(AudioEvent::Time(5_900_000)), AudioAction::SleepFor { ns: 100_000 });
    assert_eq!(source.tell(AudioEvent::Slept), AudioAction::Allocate { pts: 700 });
    assert_eq!(source.tell(AudioEvent::Buffer(true)), AudioAction::Fill { discont: false });
    assert_eq!(source.tell(AudioEvent::Filled(true)), AudioAction::Deliver);
    assert_eq!(source.audio.index, 1000);
    assert_eq!(source.audio.batch_counter, 1);

    // The next batch is not written yet: the source asks again until it is.
    source.again();
    source.tell(AudioEvent::Info(Some(info(9600, 1000))));
    assert_eq!(source.tell(AudioEvent::RunningTime(Some(800))), AudioAction::GetInfo);
    assert_eq!(source.tell(AudioEvent::Info(Some(info(9600, 1047)))), AudioAction::GetInfo);
    assert_eq!(
        source.tell(AudioEvent::Info(Some(info(9600, 1048)))),
        AudioAction::GetSamples { index: 1000, count: 48 }
    );
    assert_eq!(source.finish(MS, 7_000_000), (1_000_700, false));
}

#[test]
fn late_batches_are_moved_and_keep_their_distance() {
    let mut source = Source::new();
    source.tell(AudioEvent::Info(Some(info(9600, 1000))));
    source.tell(AudioEvent::RunningTime(Some(700)));
    source.tell(AudioEvent::Time(0));
    assert_eq!(source.finish(MS, 9_000_000), (700, false));
    source.again();
    source.tell(AudioEvent::Info(Some(info(9600, 1048))));
    source.tell(AudioEvent::RunningTime(Some(9_000_000)));
    assert_eq!(source.finish(MS, 99_000_000), (9_000_000, false));
    assert_eq!(source.anchor.gst_time, 8_000_000);
    source.again();
    source.tell(AudioEvent::Info(Some(info(9600, 1096))));
    source.tell(AudioEvent::RunningTime(Some(9_000_001)));
    assert_eq!(source.finish(MS, 99_000_000), (10_000_000, false));
}

#[test]
fn overwritten_batches_are_skipped_and_marked() {
    let mut source = Source::new();
    source.tell(AudioEvent::Info(Some(info(200, 1000))));
    source.tell(AudioEvent::RunningTime(Some(700)));
    source.tell(AudioEvent::Time(0));
    source.finish(MS, 9_000_000);
    source.again();
    // The ring holds 200 samples, of which the oldest 48 may be overwritten.
    source.tell(AudioEvent::Info(Some(info(200, 1153))));
    assert_eq!(source.tell(AudioEvent::RunningTime(Some(900))), AudioAction::GetTime);
    assert_eq!(
        source.tell(AudioEvent::Time(77)),
        AudioAction::GetSamples { index: 1057, count: 48 }
    );
    assert_eq!(source.anchor, InitialTime { mxl_index: 77, gst_time: 900 });
    assert_eq!(source.audio.batch_counter, 0);
    assert_eq!(source.finish(MS, 0), (900, true));
    assert!(!source.audio.next_discont);
}

#[test]
fn buffers_follow_one_another() {
    let mut source = Source::new();
    source.tell(AudioEvent::Info(Some(info(9600, 1000))));
    source.tell(AudioEvent::RunningTime(Some(700)));
    assert_eq!(
        source.tell(AudioEvent::Time(0)),
        AudioAction::GetSamples { index: 952, count: 48 }
    );
    assert_eq!(source.finish(MS, 9_000_000), (700, false));
    for (n, now, shown) in [(1, 800, 1_000_700), (2, 5_000_000, 5_000_000), (3, 5_000_001, 6_000_000)] {
        source.again();
        source.tell(AudioEvent::Info(Some(info(9600, 1000 + 48 * n))));
        assert_eq!(
            source.tell(AudioEvent::RunningTime(Some(now))),
            AudioAction::GetSamples { index: 952 + 48 * n, count: 48 }
        );
        assert_eq!(source.finish(MS, 90_000_000), (shown, false));
    }
}

#[test]
fn oldest_readable_batch_is_read() {
    let mut source = Source::new();
    source.tell(AudioEvent::Info(Some(info(200, 1000))));
    source.tell(AudioEvent::RunningTime(Some(700)));
    source.tell(AudioEvent::Time(0));
    source.finish(MS, 9_000_000);
    source.again();
    source.tell(AudioEvent::Info(Some(info(200, 1152))));
    assert_eq!(
        source.tell(AudioEvent::RunningTime(Some(900))),
        AudioAction::GetSamples { index: 1000, count: 48 }
    );
}

#[test]
fn failed_reads_are_tried_once_more() {
    let mut source = Source::new();
    source.tell(AudioEvent::Info(Some(info(9600, 1000))));
    source.tell(AudioEvent::RunningTime(Some(700)));
    source.tell(AudioEvent::Time(0));
    assert_eq!(
        source.tell(AudioEvent::Samples(SamplesRead::Unavailable)),
        AudioAction::GetInfo
    );
    assert_eq!(source.tell(AudioEvent::Info(Some(info(9600, 2000)))), AudioAction::GetTime);
    assert_eq!(
        source.tell(AudioEvent::Time(3)),
        AudioAction::GetSamples { index: 1904, count: 48 }
    );
    assert!(source.audio.next_discont);
    assert_eq!(
        source.tell(AudioEvent::Samples(SamplesRead::Unavailable)),
        AudioAction::Fail
    );
    assert_eq!(source.phase, AudioPhase::Failed);
}

#[test]
fn second_read_may_succeed() {
    let mut source = Source::new();
    source.tell(AudioEvent::Info(Some(info(9600, 1000))));
    source.tell(AudioEvent::RunningTime(Some(700)));
    source.tell(AudioEvent::Time(0));
    source.tell(AudioEvent::Samples(SamplesRead::Unavailable));
    source.tell(AudioEvent::Info(Some(info(9600, 50))));
    assert_eq!(
        source.tell(AudioEvent::Time(3)),
        AudioAction::GetSamples { index: 0, count: 48 }
    );
    assert_eq!(source.finish(MS, 0), (700, true));
    assert_eq!(source.audio.index, 48);
}

#[test]
fn short_rings_are_read_by_halves() {
    let mut source = Source::new();
    source.tell(AudioEvent::Info(Some(info(33, 1000))));
    source.tell(AudioEvent::RunningTime(Some(700)));
    assert_eq!(
        source.tell(AudioEvent::Time(0)),
        AudioAction::GetSamples { index: 984, count: 16 }
    );
}

#[test]
fn what_ends_an_audio_stream() {
    for events in [
        vec![AudioEvent::Info(None)],
        vec![AudioEvent::Info(Some(info(9600, 1000))), AudioEvent::RunningTime(None)],
    ] {
        let mut source = Source::new();
        for event in events {
            source.tell(event);
        }
        assert_eq!(source.action, AudioAction::Fail);
        assert_eq!(source.audio, State::for_audio().audio.unwrap());
        assert_eq!(source.anchor, InitialTime::default());
    }
    let read = vec![
        AudioEvent::Info(Some(info(9600, 1000))),
        AudioEvent::RunningTime(Some(700)),
        AudioEvent::Time(0),
    ];
    for last in [
        vec![AudioEvent::Samples(SamplesRead::MissingChannel)],
        vec![AudioEvent::Samples(SamplesRead::Unavailable), AudioEvent::Info(None)],
        vec![AudioEvent::Samples(SamplesRead::Complete), AudioEvent::Timestamps(None)],
        vec![
            AudioEvent::Samples(SamplesRead::Complete),
            AudioEvent::Timestamps(Some(MS)),
            AudioEvent::Time(u64::MAX),
            AudioEvent::Buffer(false),
        ],
        vec![
            AudioEvent::Samples(SamplesRead::Complete),
            AudioEvent::Timestamps(Some(MS)),
            AudioEvent::Time(u64::MAX),
            AudioEvent::Buffer(true),
            AudioEvent::Filled(false),
        ],
    ] {
        let mut source = Source::new();
        for event in read.iter().chain(last.iter()) {
            source.tell(*event);
        }
        assert_eq!(source.action, AudioAction::Fail);
        assert_eq!(source.audio.batch_counter, 0);
    }
}

#[test]
fn audio_steps_that_cannot_be_taken() {
    let anchor = InitialTime::default();
    let audio = State::for_audio().audio.unwrap();
    let pull = Pull { sample_rate: RATE, ring: 9600, batch: 48, now: 0 };
    let backwards = AudioEvent::Timestamps(Some(BatchTimes { end: 1, start: 2 }));
    assert!(!AudioPhase::Timestamps { pull }.check_step(&anchor, &audio, backwards));
    let end = AudioState { index: u64::MAX, ..audio };
    let head = AudioEvent::Info(Some(info(9600, 0)));
    assert!(!AudioPhase::Head { pull }.check_step(&anchor, &end, head));
    let still = Pull { sample_rate: Rational { numerator: 0, denominator: 1 }, ..pull };
    assert!(!AudioPhase::Sleep { pull: still }.check_step(&anchor, &audio, AudioEvent::Slept));
    assert!(AudioPhase::Sleep { pull }.check_step(&anchor, &audio, AudioEvent::Slept));
}
