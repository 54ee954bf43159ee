use webkit::config::{AudiovisualMediaTypes, UserInterfaceDirectionPolicy};

#[test]
fn user_interface_direction_policy_round_trips_raw_values() {
    assert_eq!(UserInterfaceDirectionPolicy::Content.as_raw(), 0);
    assert_eq!(
        UserInterfaceDirectionPolicy::from_raw(0),
        UserInterfaceDirectionPolicy::Content
    );
    assert_eq!(UserInterfaceDirectionPolicy::System.as_raw(), 1);
    assert_eq!(
        UserInterfaceDirectionPolicy::from_raw(1),
        UserInterfaceDirectionPolicy::System
    );
    assert_eq!(
        UserInterfaceDirectionPolicy::from_raw(99),
        UserInterfaceDirectionPolicy::Content
    );
}

#[test]
fn audiovisual_media_types_bitflags_combine_and_contain() {
    let mut media_types = AudiovisualMediaTypes::audio();
    media_types |= AudiovisualMediaTypes::video();

    assert!(media_types.contains(AudiovisualMediaTypes::audio()));
    assert!(media_types.contains(AudiovisualMediaTypes::video()));
    assert_eq!(
        media_types.bits(),
        AudiovisualMediaTypes::audio().bits() | AudiovisualMediaTypes::video().bits()
    );
    assert!(AudiovisualMediaTypes::all().contains(media_types));
}

#[test]
fn audiovisual_media_types_default_is_empty() {
    assert_eq!(
        AudiovisualMediaTypes::default(),
        AudiovisualMediaTypes::none()
    );
    assert_eq!(
        AudiovisualMediaTypes::from_bits(0),
        AudiovisualMediaTypes::none()
    );
}

#[test]
fn media_type_flag_values_and_union_operator() {
    assert_eq!(AudiovisualMediaTypes::none().bits(), 0);
    assert_eq!(AudiovisualMediaTypes::audio().bits(), 1);
    assert_eq!(AudiovisualMediaTypes::video().bits(), 2);
    assert_eq!(AudiovisualMediaTypes::all().bits(), u64::MAX);
    let both = AudiovisualMediaTypes::audio() | AudiovisualMediaTypes::video();
    assert_eq!(both.bits(), 3);
    assert_eq!(both, AudiovisualMediaTypes::video() | AudiovisualMediaTypes::audio());
    assert!(!AudiovisualMediaTypes::audio().contains(both));
    assert!(both.contains(AudiovisualMediaTypes::none()));
    assert!(both.contains(both));
}

#[test]
fn media_types_are_their_bits() {
    for bits in [0u64, 1, 2, 3, 4, 0x8000_0000_0000_0000, u64::MAX] {
        let types = AudiovisualMediaTypes::from_bits(bits);
        assert_eq!(types.bits(), bits);
        assert_eq!(AudiovisualMediaTypes::from_bits(types.bits()), types);
    }
    assert_eq!(AudiovisualMediaTypes::from_bits(0), AudiovisualMediaTypes::none());
    assert_eq!(AudiovisualMediaTypes::default(), AudiovisualMediaTypes::none());
}
