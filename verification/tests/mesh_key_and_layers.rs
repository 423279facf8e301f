use gizmo_pipeline_2d::mesh_key::Mesh2dPipelineKey;
use gizmo_pipeline_2d::render_layers::RenderLayers;

#[test]
fn msaa_samples_are_stored_as_log2_in_the_top_bits() {
    assert_eq!(Mesh2dPipelineKey::from_msaa_samples(1).bits, 0);
    assert_eq!(Mesh2dPipelineKey::from_msaa_samples(2).bits, 1 << 29);
    assert_eq!(Mesh2dPipelineKey::from_msaa_samples(4).bits, 2 << 29);
    assert_eq!(Mesh2dPipelineKey::from_msaa_samples(8).bits, 3 << 29);
    assert_eq!(Mesh2dPipelineKey::from_msaa_samples(128).bits, 7 << 29);
}

#[test]
fn msaa_samples_round_trip_for_powers_of_two() {
    for k in 0..8u32 {
        for hdr in [false, true] {
            let key = Mesh2dPipelineKey::for_view(1 << k, hdr);
            assert_eq!(key.msaa_samples(), 1 << k);
            assert_eq!(key.is_hdr(), hdr);
        }
    }
}

#[test]
fn msaa_sample_count_that_is_not_a_power_of_two_keeps_its_lowest_set_bit() {
    // 3 has no trailing zero, 12 has two, 256 has eight (and 8 & 7 == 0).
    assert_eq!(Mesh2dPipelineKey::for_view(3, false).msaa_samples(), 1);
    assert_eq!(Mesh2dPipelineKey::for_view(12, false).msaa_samples(), 4);
    assert_eq!(Mesh2dPipelineKey::for_view(256, false).msaa_samples(), 1);
    // Zero has 32 trailing zeros, and 32 & 7 == 0.
    assert_eq!(Mesh2dPipelineKey::for_view(0, true).msaa_samples(), 1);
}

#[test]
fn hdr_flag_is_bit_zero() {
    assert_eq!(Mesh2dPipelineKey::from_hdr(true).bits, 1);
    assert_eq!(Mesh2dPipelineKey::from_hdr(false).bits, 0);
    assert!(Mesh2dPipelineKey::for_view(4, true).is_hdr());
    assert!(!Mesh2dPipelineKey::for_view(4, false).is_hdr());
    assert_eq!(Mesh2dPipelineKey::for_view(4, true).bits, (2 << 29) | 1);
}

#[test]
fn union_and_contains() {
    let a = Mesh2dPipelineKey { bits: 0b0101 };
    let b = Mesh2dPipelineKey { bits: 0b0011 };
    assert_eq!(a.union(b).bits, 0b0111);
    assert!(a.union(b).contains(a));
    assert!(!a.contains(b));
    assert!(a.contains(Mesh2dPipelineKey::none()));
}

#[test]
fn layers_intersect_when_a_word_shares_a_bit() {
    let a = RenderLayers::from_words(vec![0b0110]);
    let b = RenderLayers::from_words(vec![0b0100, 0b1]);
    let c = RenderLayers::from_words(vec![0b1000]);
    assert!(a.intersects(&b));
    assert!(b.intersects(&a));
    assert!(!a.intersects(&c));
    assert!(!c.intersects(&a));
}

#[test]
fn layers_beyond_the_shorter_set_do_not_count() {
    let a = RenderLayers::from_words(vec![0, 1]);
    let b = RenderLayers::from_words(vec![1]);
    assert!(!a.intersects(&b));
    let c = RenderLayers::from_words(vec![2, 1]);
    assert!(a.intersects(&c));
}

#[test]
fn default_layers_are_layer_zero() {
    let d = RenderLayers::default_layers();
    assert_eq!(d.words, vec![1]);
    assert!(d.intersects(&RenderLayers::from_words(vec![0b11])));
    assert!(!d.intersects(&RenderLayers::from_words(vec![0b10])));
    assert!(!d.intersects(&RenderLayers::none()));
    assert!(!RenderLayers::none().intersects(&RenderLayers::none()));
}
