use fmsynth::env_generator::{EnvGenerator, EnvState};
use fmsynth::fp::FP;

fn from_f32(x: f32) -> FP {
    FP::raw((x * 65536.0) as i32)
}

#[test]
fn test_env() {
    let mut env: EnvGenerator = EnvGenerator::new();
    env.attack_rate = from_f32(0.015);
    env.decay_rate = from_f32(0.015);
    env.sustain_level = from_f32(0.33);
    env.release_rate = from_f32(0.005);

    let mut saw_attack = false;
    let mut saw_decay = false;
    let mut saw_sustain = false;
    let mut saw_release = false;
    for tick in 0..1024 {
        if tick == 2 {
            env.open()
        }
        if tick == 350 {
            env.close()
        }
        env.get_sample();
        match env.state {
            EnvState::Attack => saw_attack = true,
            EnvState::Decay => saw_decay = true,
            EnvState::Sustain => saw_sustain = true,
            EnvState::Release => saw_release = true,
            EnvState::Idle => {}
        }
    }
    assert!(saw_attack && saw_decay && saw_sustain && saw_release);
    // with these rates the release has fully run out well before tick 1024
    assert_eq!(env.state, EnvState::Idle);
    assert_eq!(env.level.repr, 0);
}

#[test]
fn test_attack_reaches_decay() {
    let mut env = EnvGenerator::new();
    env.attack_rate = from_f32(0.015);
    env.open();
    assert_eq!(env.state, EnvState::Attack);
    let mut reached_at = None;
    for tick in 0..1024 {
        env.get_sample();
        if env.state == EnvState::Decay {
            reached_at = Some(tick);
            break;
        }
    }
    let t = reached_at.expect("attack never reached decay");
    // bound from the index range and the rate: (12625 + 196608) / 983 + 1
    assert!(t <= (12625 + 196608) / 983 + 1);
    assert_eq!(env.level.repr, 0x1_0000);
}

#[test]
fn test_close_mid_attack_small_discontinuity() {
    let mut env = EnvGenerator::new();
    env.attack_rate = from_f32(0.015);
    env.release_rate = from_f32(0.005);
    env.open();
    let mut before = FP::raw(0);
    for _ in 0..100 {
        before = env.get_sample();
    }
    env.close();
    assert_eq!(env.state, EnvState::Release);
    let after = env.get_sample();
    // the curve-matching search keeps the level continuous across the switch
    assert!(
        (after.repr - before.repr).abs() <= 1000,
        "level jumped from {} to {}",
        before.repr,
        after.repr
    );
}

#[test]
fn test_decay_to_release_without_sustain() {
    let mut env = EnvGenerator::new();
    env.attack_rate = from_f32(0.9);
    env.decay_rate = from_f32(0.015);
    env.sustain_level = from_f32(0.5);
    env.release_rate = from_f32(0.001);
    env.is_sustained = false;
    env.open();
    let mut states = Vec::new();
    for _ in 0..2048 {
        env.get_sample();
        if states.last() != Some(&env.state) {
            states.push(env.state);
        }
    }
    // the path passes from Decay directly to Release, never through Sustain
    assert!(states.contains(&EnvState::Release));
    assert!(!states.contains(&EnvState::Sustain));
    let d = states.iter().position(|s| *s == EnvState::Decay).unwrap();
    assert_eq!(states[d + 1], EnvState::Release);
}

#[test]
fn test_idle_stays_idle() {
    let mut env = EnvGenerator::new();
    env.attack_rate = from_f32(0.5);
    for _ in 0..32 {
        let level = env.get_sample();
        assert_eq!(level.repr, 0);
        assert_eq!(env.state, EnvState::Idle);
    }
}

#[test]
fn test_state_to_str() {
    let mut env = EnvGenerator::new();
    assert_eq!(env.state_to_str(), "Idl");
    env.attack_rate = from_f32(0.015);
    env.open();
    assert_eq!(env.state_to_str(), "Att");
    env.close();
    assert_eq!(env.state_to_str(), "Rel");
}
