use sound_sync::effect::{BaseEffect, Effect, EffectInput, StubEffect};
use sound_sync::filter::{Biquad, InputFilter};
use sound_sync::pool::Pool;
use sound_sync::reverb::Reverb;
use sound_sync::source::{
    DistanceModel, Listener, SoundSource, SoundSourceBuilder, Status, Vec3,
};

fn playing_source_at(x: i64, samples: Vec<(i64, i64)>) -> SoundSource {
    let mut s = SoundSourceBuilder::new()
        .with_status(Status::Playing)
        .with_position(Vec3 { x, y: 0, z: 0 })
        .with_max_distance(1025)
        .build()
        .unwrap();
    s.frame_samples = samples;
    s
}

#[test]
fn gain_clamps_at_zero() {
    let mut base = BaseEffect::empty();
    base.set_gain(-5);
    assert_eq!(base.gain(), 0);
    base.set_gain(7);
    assert_eq!(base.gain(), 7);
    base.set_gain(-1);
    assert_eq!(base.gain(), 0);

    let mut reverb = Reverb::new(BaseEffect::empty());
    reverb.set_gain(-100);
    assert_eq!(reverb.gain(), 0);
    reverb.set_gain(2048);
    assert_eq!(reverb.gain(), 2048);
}

#[test]
fn inputs_are_managed_in_order() {
    let mut pool: Pool<SoundSource> = Pool::new();
    let h1 = pool.spawn(playing_source_at(0, vec![]));
    let h2 = pool.spawn(playing_source_at(0, vec![]));
    let mut base = BaseEffect::empty();
    base.add_input(EffectInput::direct(h1));
    base.add_input(EffectInput::filtered(h2, InputFilter::new(Biquad::new(512, 0, 0, 0, 0))));
    assert_eq!(base.inputs_ref().len(), 2);
    assert_eq!(base.inputs_ref()[0].source(), h1);
    assert_eq!(base.inputs_ref()[1].source(), h2);
    assert!(base.inputs_ref()[0].filter_ref().is_none());
    assert!(base.inputs_ref()[1].filter_ref().is_some());
    let removed = base.remove_input(0);
    assert_eq!(removed.source(), h1);
    assert_eq!(base.inputs_ref().len(), 1);
    base.clear_inputs();
    assert_eq!(base.inputs_ref().len(), 0);
}

#[test]
fn dangling_input_is_pruned_by_render() {
    let mut sources: Pool<SoundSource> = Pool::new();
    let h1 = sources.spawn(playing_source_at(0, vec![(1, 1); 4]));
    let h2 = sources.spawn(playing_source_at(0, vec![(2, 2); 4]));
    let mut base = BaseEffect::empty();
    base.add_input(EffectInput::direct(h1));
    base.add_input(EffectInput::direct(h2));

    sources.free(h2);
    let listener = Listener::new();
    base.render(&sources, &listener, DistanceModel::NoAttenuation, 4);

    // The input whose source was freed is gone; the list shrank by exactly
    // one and the other connection survived.
    assert_eq!(base.inputs_ref().len(), 1);
    assert_eq!(base.inputs_ref()[0].source(), h1);
}

#[test]
fn click_free_ramp_over_two_frames() {
    let mut sources: Pool<SoundSource> = Pool::new();
    let h = sources.spawn(playing_source_at(0, vec![(1000, 1000); 4]));
    let mut base = BaseEffect::empty();
    base.add_input(EffectInput::direct(h));
    let listener = Listener::new();

    // First frame: the ramp is seeded with the current distance gain, so
    // every sample carries the full gain - no discontinuity at connection.
    base.render(&sources, &listener, DistanceModel::Linear, 4);
    assert_eq!(base.frame_samples, vec![(1000, 1000); 4]);

    // Move the source so its distance gain halves; the second frame ramps
    // from the previous frame's gain to the new one, sample by sample.
    sources.borrow_mut(h).set_position(Vec3 { x: 513, y: 0, z: 0 });
    base.render(&sources, &listener, DistanceModel::Linear, 4);
    assert_eq!(
        base.frame_samples,
        vec![(1000, 1000), (875, 875), (750, 750), (625, 625)]
    );
}

#[test]
fn paused_source_is_silent_but_retained() {
    let mut sources: Pool<SoundSource> = Pool::new();
    let mut s = playing_source_at(0, vec![(1000, 1000); 4]);
    s.pause();
    let h = sources.spawn(s);
    let mut base = BaseEffect::empty();
    base.add_input(EffectInput::direct(h));
    base.render(&sources, &Listener::new(), DistanceModel::NoAttenuation, 4);
    assert_eq!(base.inputs_ref().len(), 1);
    assert_eq!(base.frame_samples, vec![(0, 0); 4]);
}

#[test]
fn filtered_input_is_filtered_before_gain() {
    let mut sources: Pool<SoundSource> = Pool::new();
    let h = sources.spawn(playing_source_at(0, vec![(1000, 1000); 2]));
    let mut base = BaseEffect::empty();
    base.add_input(EffectInput::filtered(h, InputFilter::new(Biquad::new(512, 0, 0, 0, 0))));
    base.render(&sources, &Listener::new(), DistanceModel::NoAttenuation, 2);
    assert_eq!(base.frame_samples, vec![(500, 500); 2]);
}

#[test]
fn two_inputs_mix_additively() {
    let mut sources: Pool<SoundSource> = Pool::new();
    let h1 = sources.spawn(playing_source_at(0, vec![(100, 10); 2]));
    let h2 = sources.spawn(playing_source_at(0, vec![(30, 3); 2]));
    let mut base = BaseEffect::empty();
    base.add_input(EffectInput::direct(h1));
    base.add_input(EffectInput::direct(h2));
    base.render(&sources, &Listener::new(), DistanceModel::NoAttenuation, 2);
    assert_eq!(base.frame_samples, vec![(130, 13); 2]);
}

#[test]
fn stub_effect_renders_nothing() {
    let sources: Pool<SoundSource> = Pool::new();
    let mut e = Effect::stub();
    let mut mix = vec![(7, 7); 3];
    e.render(&sources, &Listener::new(), DistanceModel::NoAttenuation, &mut mix);
    assert_eq!(mix, vec![(7, 7); 3]);
    assert!(matches!(e, Effect::Stub(StubEffect { .. })));
}

#[test]
fn reverb_folds_mix_into_bus() {
    let mut sources: Pool<SoundSource> = Pool::new();
    let h = sources.spawn(playing_source_at(0, vec![(100, 200); 2]));
    let mut base = BaseEffect::empty();
    base.add_input(EffectInput::direct(h));
    let mut e = Effect::Reverb(Reverb::new(base));
    let mut mix = vec![(5, 5); 2];
    e.render(&sources, &Listener::new(), DistanceModel::NoAttenuation, &mut mix);
    assert_eq!(mix, vec![(105, 205); 2]);
}

#[test]
fn effect_base_access_is_uniform() {
    let mut e = Effect::Reverb(Reverb::new(BaseEffect::empty()));
    e.base_mut().set_gain(77);
    assert_eq!(e.base().gain, 77);
    let mut s = Effect::stub();
    s.base_mut().set_gain(33);
    assert_eq!(s.base().gain, 33);
}

#[test]
fn reverb_parameters_saturate() {
    let mut r = Reverb::new(BaseEffect::empty());
    r.set_wet(5000);
    assert_eq!(r.wet(), 1024);
    r.set_dry(-2);
    assert_eq!(r.dry(), 0);
    r.set_fc(-9);
    assert_eq!(r.fc(), 0);
    r.set_decay_time(1234);
    assert_eq!(r.decay_time(), 1234);
}
