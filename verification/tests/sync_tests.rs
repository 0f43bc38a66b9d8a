use sound_sync::backend::Renderer;
use sound_sync::context::{make_override_set, SoundContext};
use sound_sync::fixed::FP_ONE;
use sound_sync::model::{Effect, ReverbEffect};
use sound_sync::node_set::node_set_contains;
use sound_sync::pool::Handle;
use sound_sync::sound::Sound;
use sound_sync::source::{DistanceModel, Status, Vec3};

fn node(ix: usize) -> Handle {
    Handle { index: ix, generation: 1 }
}

#[test]
fn lazy_creation_then_field_update() {
    let mut ctx = SoundContext::new();
    let mut sound = Sound::new(String::from("s"));
    sound.set_gain(512);

    // First sync creates a bound backend source carrying the model's gain.
    ctx.sync_to_sound(node(1), &mut sound, None);
    let h1 = sound.native();
    assert!(h1.is_some());
    let src = ctx.native.try_get_source(h1).unwrap();
    assert_eq!(src.gain, 512);
    assert_eq!(src.pitch, FP_ONE);

    // Changing the gain and syncing again updates only the gain on the very
    // same backend source; the handle identity is unchanged.
    sound.set_gain(800);
    ctx.sync_to_sound(node(1), &mut sound, None);
    let h2 = sound.native();
    assert_eq!(h1, h2);
    let src = ctx.native.try_get_source(h2).unwrap();
    assert_eq!(src.gain, 800);
    assert_eq!(src.pitch, FP_ONE);
}

#[test]
fn reconciliation_is_idempotent() {
    let mut ctx = SoundContext::new();
    let mut sound = Sound::new(String::from("s"));
    sound.set_gain(300);
    sound.set_pitch(700);
    sound.set_status(Status::Playing);

    ctx.sync_to_sound(node(1), &mut sound, None);
    // The first call cleared every change flag.
    assert!(!sound.gain.dirty);
    assert!(!sound.pitch.dirty);
    assert!(!sound.status.dirty);
    assert!(!sound.effect_name.dirty);
    let h = sound.native();
    let before = ctx.native.try_get_source(h).unwrap().clone();

    // The second call, with no model change in between, touches nothing.
    ctx.sync_to_sound(node(1), &mut sound, None);
    assert_eq!(sound.native(), h);
    let after = ctx.native.try_get_source(h).unwrap();
    assert_eq!(after.gain, before.gain);
    assert_eq!(after.pitch, before.pitch);
    assert_eq!(after.status, before.status);
    assert_eq!(after.playback_time, before.playback_time);
    assert_eq!(after.radius, before.radius);
    assert_eq!(after.max_distance, before.max_distance);
}

#[test]
fn disable_removes_backend_state() {
    let mut ctx = SoundContext::new();
    let mut sound = Sound::new(String::from("s"));
    ctx.sync_to_sound(node(1), &mut sound, None);
    let h = sound.native();
    assert!(ctx.native.is_valid_handle(h));

    sound.set_enabled(false);
    ctx.sync_to_sound(node(1), &mut sound, None);
    assert!(!sound.native().is_some());
    assert!(!ctx.native.is_valid_handle(h));
}

#[test]
fn override_set_shuts_out_other_nodes() {
    let mut ctx = SoundContext::new();
    let mut sound = Sound::new(String::from("s"));
    ctx.sync_to_sound(node(1), &mut sound, None);
    assert!(sound.native().is_some());

    // An override set that admits only node 2 removes node 1's source.
    let set = make_override_set(&vec![node(2)]);
    assert!(node_set_contains(&set, (2, 1)));
    assert!(!node_set_contains(&set, (1, 1)));
    ctx.sync_to_sound(node(1), &mut sound, Some(&set));
    assert!(!sound.native().is_some());

    // A set that admits the node lets it sync again.
    let set2 = make_override_set(&vec![node(1)]);
    ctx.sync_to_sound(node(1), &mut sound, Some(&set2));
    assert!(sound.native().is_some());
}

#[test]
fn creation_failure_leaves_sound_unbound() {
    let mut ctx = SoundContext::new();
    let mut sound = Sound::new(String::from("s"));
    sound.set_gain(-5);
    ctx.sync_to_sound(node(1), &mut sound, None);
    assert!(!sound.native().is_some());
    // The flag stays set, so a corrected value is pushed by a later tick.
    assert!(sound.gain.dirty);
    sound.set_gain(5);
    ctx.sync_to_sound(node(1), &mut sound, None);
    assert!(sound.native().is_some());
    assert_eq!(ctx.native.try_get_source(sound.native()).unwrap().gain, 5);
}

#[test]
fn update_creates_and_pushes_effects() {
    let mut ctx = SoundContext::new();
    let mut re = ReverbEffect::new(String::from("A"));
    re.set_gain(500);
    let he = ctx.add_effect(Effect::Reverb(re));

    // The first tick materializes the backend counterpart with the model's
    // current parameters.
    ctx.update();
    let ne = ctx.effect(he).native();
    assert!(ne.is_some());
    let backend = ctx.native.effects.borrow(ne);
    match backend {
        sound_sync::effect::Effect::Reverb(nr) => {
            assert_eq!(nr.gain(), 500);
            assert_eq!(nr.decay_time(), 3000);
        },
        _ => panic!("expected a reverb"),
    }

    // A later tick pushes exactly the changed parameters.
    match ctx.effect_mut(he) {
        Effect::Reverb(r) => {
            r.set_wet(100);
            r.set_decay_time(777);
        },
    }
    ctx.update();
    assert_eq!(ctx.effect(he).native(), ne);
    match ctx.native.effects.borrow(ne) {
        sound_sync::effect::Effect::Reverb(nr) => {
            assert_eq!(nr.wet(), 100);
            assert_eq!(nr.decay_time(), 777);
            assert_eq!(nr.gain(), 500);
        },
        _ => panic!("expected a reverb"),
    }
    match ctx.effect(he) {
        Effect::Reverb(r) => {
            assert!(!r.wet.dirty);
            assert!(!r.decay_time.dirty);
        },
    }
}

#[test]
fn effect_rewiring_moves_the_input() {
    let mut ctx = SoundContext::new();
    let ha = ctx.add_effect(Effect::Reverb(ReverbEffect::new(String::from("A"))));
    let hb = ctx.add_effect(Effect::Reverb(ReverbEffect::new(String::from("B"))));
    ctx.update();
    let na = ctx.effect(ha).native();
    let nb = ctx.effect(hb).native();

    let mut sound = Sound::new(String::from("s"));
    sound.set_effect_name(String::from("A"));
    ctx.sync_to_sound(node(1), &mut sound, None);
    let hs = sound.native();
    assert_eq!(ctx.native.effects.borrow(na).base().inputs_ref().len(), 1);
    assert_eq!(ctx.native.effects.borrow(na).base().inputs_ref()[0].source(), hs);
    assert_eq!(ctx.native.effects.borrow(nb).base().inputs_ref().len(), 0);

    // Renaming the effect moves the input: effect A no longer references
    // the source, effect B does.
    sound.set_effect_name(String::from("B"));
    ctx.sync_to_sound(node(1), &mut sound, None);
    assert_eq!(ctx.native.effects.borrow(na).base().inputs_ref().len(), 0);
    assert_eq!(ctx.native.effects.borrow(nb).base().inputs_ref().len(), 1);
    assert_eq!(ctx.native.effects.borrow(nb).base().inputs_ref()[0].source(), hs);
    assert!(!sound.effect_name.dirty);
}

#[test]
fn unresolved_effect_name_is_retried() {
    let mut ctx = SoundContext::new();
    let mut sound = Sound::new(String::from("s"));
    sound.set_effect_name(String::from("later"));
    ctx.sync_to_sound(node(1), &mut sound, None);
    assert!(sound.native().is_some());
    // The effect is not materialized yet: the sound stays dry and pending.
    assert!(sound.effect_name.dirty);

    let he = ctx.add_effect(Effect::Reverb(ReverbEffect::new(String::from("later"))));
    ctx.update();
    ctx.sync_to_sound(node(1), &mut sound, None);
    assert!(!sound.effect_name.dirty);
    let ne = ctx.effect(he).native();
    assert_eq!(ctx.native.effects.borrow(ne).base().inputs_ref().len(), 1);
}

#[test]
fn empty_effect_name_means_dry() {
    let mut ctx = SoundContext::new();
    let ha = ctx.add_effect(Effect::Reverb(ReverbEffect::new(String::from("A"))));
    ctx.update();
    let na = ctx.effect(ha).native();

    let mut sound = Sound::new(String::from("s"));
    sound.set_effect_name(String::from("A"));
    ctx.sync_to_sound(node(1), &mut sound, None);
    assert_eq!(ctx.native.effects.borrow(na).base().inputs_ref().len(), 1);

    // Clearing the name dries the sound: the input is removed and the
    // change completes at once.
    sound.set_effect_name(String::new());
    ctx.sync_to_sound(node(1), &mut sound, None);
    assert_eq!(ctx.native.effects.borrow(na).base().inputs_ref().len(), 0);
    assert!(!sound.effect_name.dirty);
}

#[test]
fn sync_with_sound_pulls_silently() {
    let mut ctx = SoundContext::new();
    let mut sound = Sound::new(String::from("s"));
    ctx.sync_to_sound(node(1), &mut sound, None);
    let h = sound.native();
    let src = ctx.native.try_get_source_mut(h).unwrap();
    src.play();
    src.set_playback_time(42);

    ctx.sync_with_sound(&mut sound);
    assert_eq!(*sound.status.get(), Status::Playing);
    assert_eq!(*sound.playback_time.get(), 42);
    // The pull is silent: it must not trigger a push on the next tick.
    assert!(!sound.status.dirty);
    assert!(!sound.playback_time.dirty);
}

#[test]
fn sound_position_is_pushed_each_tick() {
    let mut ctx = SoundContext::new();
    let mut sound = Sound::new(String::from("s"));
    ctx.sync_to_sound(node(1), &mut sound, None);
    sound.set_position(Vec3 { x: 10, y: -4, z: 2 });
    ctx.set_sound_position(&sound);
    let src = ctx.native.try_get_source(sound.native()).unwrap();
    assert_eq!(src.position, Vec3 { x: 10, y: -4, z: 2 });
}

#[test]
fn remove_sound_is_idempotent() {
    let mut ctx = SoundContext::new();
    let mut sound = Sound::new(String::from("s"));
    ctx.sync_to_sound(node(1), &mut sound, None);
    let h = sound.native();
    ctx.remove_sound(h);
    assert!(!ctx.native.is_valid_handle(h));
    // Removing again, or removing a never-bound handle, changes nothing.
    ctx.remove_sound(h);
    ctx.remove_sound(Handle::none());
}

#[test]
fn global_settings_reach_the_backend() {
    let mut ctx = SoundContext::new();
    ctx.set_master_gain(-9);
    assert_eq!(ctx.master_gain(), -9);
    assert_eq!(ctx.native.master_gain, 0);
    ctx.set_master_gain(555);
    assert_eq!(ctx.native.master_gain, 555);

    ctx.set_distance_model(DistanceModel::Linear);
    assert_eq!(ctx.distance_model(), DistanceModel::Linear);
    assert_eq!(ctx.native.distance_model, DistanceModel::Linear);

    ctx.pause(true);
    assert!(ctx.is_paused());
    assert!(ctx.native.paused);

    let prev = ctx.set_renderer(Renderer::Hrtf);
    assert_eq!(prev, Renderer::Standard);
    assert_eq!(ctx.native.renderer, Renderer::Hrtf);

    // Half the sample rate normalizes to half the fixed-point unit.
    assert_eq!(ctx.normalize_frequency(22050), 512);
    assert_eq!(ctx.full_render_duration(), 0);
}

#[test]
fn destroy_sound_sources_clears_the_table() {
    let mut ctx = SoundContext::new();
    let mut s1 = Sound::new(String::from("a"));
    let mut s2 = Sound::new(String::from("b"));
    ctx.sync_to_sound(node(1), &mut s1, None);
    ctx.sync_to_sound(node(2), &mut s2, None);
    assert_eq!(ctx.native.sources.alive_count(), 2);
    ctx.destroy_sound_sources();
    assert_eq!(ctx.native.sources.alive_count(), 0);
    assert!(!ctx.native.is_valid_handle(s1.native()));
    assert!(!ctx.native.is_valid_handle(s2.native()));
}

#[test]
fn model_effect_pool_management() {
    let mut ctx = SoundContext::new();
    let h = ctx.add_effect(Effect::Reverb(ReverbEffect::new(String::from("A"))));
    assert_eq!(ctx.effects_count(), 1);
    assert_eq!(ctx.effects(), vec![h]);
    assert!(ctx.try_get_effect(h).is_some());

    let (ticket, effect) = ctx.take_reserve_effect(h);
    assert!(ctx.try_get_effect(h).is_none());
    let back = ctx.put_effect_back(ticket, effect);
    assert_eq!(back, h);

    let removed = ctx.remove_effect(h);
    match removed {
        Effect::Reverb(r) => assert_eq!(r.name, "A"),
    }
    assert_eq!(ctx.effects_count(), 0);
}
