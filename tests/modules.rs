use fundsp::hacker32::{shared, Fade, Sequencer};
use octmm::audio::{AudioAction, AudioModule};
use octmm::graph::DspModule;
use octmm::network::NodeType;
use octmm::timer::{CallbackType, TimerModule, DEFAULT_FREQUENCY};

struct Counts {
    tick: u32,
    beat: u32,
    tick_enabled: bool,
    beat_enabled: bool,
}

fn run_update(timer: &mut TimerModule, now: u64, c: &mut Counts) {
    let tick = "tick".to_string();
    let beat = "beat".to_string();
    for name in timer.update(now) {
        if name == tick {
            c.tick += 1;
            if c.tick == 4 {
                timer.set_enabled(&tick, false, false);
            }
            c.tick_enabled = timer.is_enabled(&tick).unwrap();
        } else if name == beat {
            c.beat += 1;
            if c.beat == 2 {
                timer.set_enabled(&beat, false, false);
            }
            c.beat_enabled = timer.is_enabled(&beat).unwrap();
        }
    }
}

fn timer_module_scenario() {
    let mut timer = TimerModule::new();
    assert!(timer.set_bpm(60_000));
    let tick = "tick".to_string();
    let beat = "beat".to_string();
    assert!(timer.add_callback(&tick, CallbackType::Tick, DEFAULT_FREQUENCY, 0));
    assert!(timer.add_callback(&beat, CallbackType::Beat, 1_000, 0));
    assert!(timer.set_enabled(&tick, true, false));
    assert!(timer.set_enabled(&beat, true, false));

    let mut c = Counts { tick: 0, beat: 0, tick_enabled: false, beat_enabled: false };

    run_update(&mut timer, 0, &mut c);
    assert_eq!(c.tick, 1);
    assert_eq!(c.beat, 1);

    run_update(&mut timer, 0, &mut c);
    assert_eq!(c.tick, 2);
    assert_eq!(c.beat, 1);
    assert_eq!(c.tick_enabled, true);
    assert_eq!(c.beat_enabled, true);

    run_update(&mut timer, 1_000, &mut c);
    assert_eq!(c.tick, 3);
    assert_eq!(c.beat, 2);
    assert_eq!(c.tick_enabled, true);
    assert_eq!(c.beat_enabled, false);

    run_update(&mut timer, 3_000, &mut c);
    assert_eq!(c.tick, 4);
    assert_eq!(c.beat, 2);
    assert_eq!(c.tick_enabled, false);
    assert_eq!(c.beat_enabled, false);

    run_update(&mut timer, 5_000, &mut c);
    assert_eq!(c.tick, 4);
    assert_eq!(c.beat, 2);

    // A beat callback needs a frequency.
    assert!(!timer.add_callback(&"no_freq".to_string(), CallbackType::Beat, 0, 0));
    // Names are unique.
    assert!(!timer.add_callback(&tick, CallbackType::Tick, DEFAULT_FREQUENCY, 0));
    // Unknown callbacks cannot be enabled.
    assert!(!timer.set_enabled(&"missing".to_string(), true, false));
}

fn expression_scenario() {
    let mut dsp = DspModule::new();
    let sine = NodeType::Sine.as_net_id().unwrap();
    let saw = NodeType::Saw.as_net_id().unwrap();
    let f = dsp.shared_set(&"freq".to_string(), &shared(420.0));
    let m = dsp.net_constant(&shared(0.5));

    // ((f .. Sine) * f * m) + f .. Sine
    let x = dsp.net_pipe(f, sine).unwrap();
    let x = dsp.net_product(x, f).unwrap();
    let x = dsp.net_product(x, m).unwrap();
    let x = dsp.net_bus(x, f).unwrap();
    let fm_synth = dsp.net_pipe(x, sine).unwrap();
    let cloned = dsp.net_clone(fm_synth);

    // (Sine + f) .. (Sine + Saw) .. (f + Sine) + (f * m)
    let fm = dsp.net_product(f, m).unwrap();
    let right = dsp.net_bus(f, sine).unwrap();
    let right = dsp.net_bus(right, fm).unwrap();
    let middle = dsp.net_bus(sine, saw).unwrap();
    let middle = dsp.net_pipe(middle, right).unwrap();
    let left = dsp.net_bus(sine, f).unwrap();
    let operation_test = dsp.net_pipe(left, middle);

    assert!(operation_test.is_some());
    assert!(cloned.is_some());
    assert_ne!(cloned.unwrap(), fm_synth);
}

fn audio_scenario() {
    let mut module = AudioModule::new();
    let mut sequencer = Sequencer::new(false, 1);
    let mut reply = |module: &mut AudioModule, arg: String| match module.command(&arg).unwrap() {
        AudioAction::Reply(text) => text,
        AudioAction::Play(network, duration) => {
            let seconds: f64 = duration.parse().unwrap();
            let id = sequencer.push_relative(0.0, seconds, Fade::Smooth, 0.01, 0.01, Box::new(network.into_net()));
            module.record_event(id)
        }
        AudioAction::Release(id) => {
            sequencer.edit_relative(id, 0.01, 0.01);
            "true".to_string()
        }
    };
    // Constant.new(0.0) * (Constant.new(440) .. Sine)
    let silent = reply(&mut module, "dsp;net_constant;0.0".to_string());
    let pitch = reply(&mut module, "dsp;net_constant;440".to_string());
    let sine = reply(&mut module, "dsp;net_default;sine".to_string());
    let tone = reply(&mut module, format!("dsp;net_pipe;{};{}", pitch, sine));
    let test_net = reply(&mut module, format!("dsp;net_product;{};{}", tone, silent));
    assert_ne!(test_net, "nil");
    let event = reply(&mut module, format!("audio;play;{};1.0", test_net));
    assert_eq!(reply(&mut module, format!("audio;stop;{}", event)), "true");
}

#[test]
fn mod_test_rust_module() {
    timer_module_scenario();
    expression_scenario();
    audio_scenario();
}
