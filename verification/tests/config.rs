use virtio_sound::config::ConfigManager;
use virtio_sound::config::VirtioSoundConfig;
use virtio_sound::dma::DmaStream;
use virtio_sound::execve::count_until_null;
use virtio_sound::pcm::check_sizes;
use virtio_sound::pcm::PCMState;
use virtio_sound::pcm::PcmParameters;
use virtio_sound::queue::DmaBuf;

fn config() -> VirtioSoundConfig {
    VirtioSoundConfig { jacks: 1, streams: 2, chmaps: 3, controls: 4 }
}

#[test]
fn the_configuration_space_is_four_words() {
    assert_eq!(config().to_bytes(), vec![1, 0, 0, 0, 2, 0, 0, 0, 3, 0, 0, 0, 4, 0, 0, 0]);
}

#[test]
fn the_counters_are_read_from_the_region() {
    let manager = VirtioSoundConfig::new_manager(Some(config().to_bytes()), false);
    assert_eq!(
        manager.read_config(),
        VirtioSoundConfig { jacks: 1, streams: 2, chmaps: 3, controls: 0 }
    );
    assert_eq!(manager.read_once(0), Some(1));
    assert_eq!(manager.read_once(4), Some(2));
    assert_eq!(manager.read_once(8), Some(3));
    assert_eq!(manager.read_once(12), Some(4));
    assert_eq!(manager.read_once(13), None);
    assert_eq!(manager.read_once(usize::MAX), None);
}

#[test]
fn control_elements_count_only_where_negotiated() {
    let manager = VirtioSoundConfig::new_manager(Some(config().to_bytes()), true);
    assert_eq!(manager.read_config(), config());
    let garbage = VirtioSoundConfig { jacks: 0, streams: 2, chmaps: 0, controls: 0xffff_ffff };
    let manager = VirtioSoundConfig::new_manager(Some(garbage.to_bytes()), false);
    assert_eq!(manager.read_config().controls, 0);
}

#[test]
fn a_missing_region_reads_as_zero() {
    let manager = VirtioSoundConfig::new_manager(None, true);
    assert_eq!(
        manager.read_config(),
        VirtioSoundConfig { jacks: 0, streams: 0, chmaps: 0, controls: 0 }
    );
    assert_eq!(manager.read_once(0), None);
}

#[test]
fn a_short_region_reads_what_it_holds() {
    let manager: ConfigManager =
        VirtioSoundConfig::new_manager(Some(config().to_bytes()[..10].to_vec()), true);
    assert_eq!(
        manager.read_config(),
        VirtioSoundConfig { jacks: 1, streams: 2, chmaps: 0, controls: 0 }
    );
}

#[test]
fn the_life_cycle_table() {
    let states = [
        PCMState::SetParameters,
        PCMState::Prepare,
        PCMState::Release,
        PCMState::Start,
        PCMState::Stop,
    ];
    let allowed = [
        (PCMState::SetParameters, PCMState::SetParameters),
        (PCMState::SetParameters, PCMState::Prepare),
        (PCMState::Prepare, PCMState::SetParameters),
        (PCMState::Prepare, PCMState::Prepare),
        (PCMState::Prepare, PCMState::Start),
        (PCMState::Prepare, PCMState::Release),
        (PCMState::Start, PCMState::Stop),
        (PCMState::Stop, PCMState::Start),
        (PCMState::Stop, PCMState::Release),
        (PCMState::Release, PCMState::SetParameters),
        (PCMState::Release, PCMState::Prepare),
    ];
    for from in states {
        for to in states {
            assert_eq!(from.can_transition_to(to), allowed.contains(&(from, to)));
        }
    }
    assert_eq!(PCMState::default(), PCMState::SetParameters);
}

#[test]
fn a_buffer_is_a_whole_number_of_periods() {
    assert!(check_sizes(80000, 100));
    assert!(check_sizes(100, 100));
    assert!(check_sizes(1, 1));
    assert!(check_sizes(u32::MAX, 1));
    assert!(!check_sizes(100, 0));
    assert!(!check_sizes(0, 0));
    assert!(!check_sizes(100, 30));
    assert!(!check_sizes(100, 200));
    assert!(!check_sizes(0, 1));
}

#[test]
fn parameters_start_unset() {
    let p = PcmParameters::default();
    assert!(!p.setup);
    assert_eq!((p.buffer_bytes, p.period_bytes, p.channels), (0, 0, 0));
    assert!(p.features.is_empty());
}

#[test]
fn a_region_must_fit_the_address_space() {
    assert!(DmaStream::new(0, 0).is_some());
    assert!(DmaStream::new(u64::MAX - 4096, 4096).is_some());
    assert!(DmaStream::new(u64::MAX - 4095, 4096).is_none());
    let b = DmaStream::new(0x1000, 16).unwrap();
    assert_eq!(b.nbytes(), 16);
    assert_eq!(b.daddr(), 0x1000);
    assert_eq!(b.bytes(), &[0u8; 16]);
}

#[test]
fn copies_stop_at_the_end_of_the_region() {
    let mut b = DmaStream::new(0x1000, 8).unwrap();
    assert_eq!(b.write(0, &[1, 2, 3]), 3);
    assert_eq!(b.bytes(), &[1, 2, 3, 0, 0, 0, 0, 0]);
    assert_eq!(b.write(6, &[7, 8, 9, 10]), 2);
    assert_eq!(b.bytes(), &[1, 2, 3, 0, 0, 0, 7, 8]);
    assert_eq!(b.write(8, &[1]), 0);
    assert_eq!(b.write(100, &[1]), 0);
    assert_eq!(b.write(2, &[]), 0);
    assert_eq!(b.bytes(), &[1, 2, 3, 0, 0, 0, 7, 8]);
    assert_eq!(b.read(1, 2), vec![2, 3]);
    assert_eq!(b.read(6, 10), vec![7, 8]);
    assert_eq!(b.read(0, 8), vec![1, 2, 3, 0, 0, 0, 7, 8]);
    assert_eq!(b.read(8, 1), vec![]);
    assert_eq!(b.read(9, 1), vec![]);
    assert_eq!(b.read(3, 0), vec![]);
}

#[test]
fn a_slice_names_a_part_of_the_region() {
    let b = DmaStream::new(0x1000, 8).unwrap();
    assert_eq!(b.slice(0, 8), Some(DmaBuf { daddr: 0x1000, len: 8 }));
    assert_eq!(b.slice(3, 4), Some(DmaBuf { daddr: 0x1003, len: 4 }));
    assert_eq!(b.slice(8, 0), Some(DmaBuf { daddr: 0x1008, len: 0 }));
    assert_eq!(b.slice(0, 9), None);
    assert_eq!(b.slice(5, 4), None);
    assert_eq!(b.slice(9, 0), None);
    assert_eq!(b.slice(usize::MAX, 2), None);
}

#[test]
fn an_address_of_the_device_is_a_place_in_the_region() {
    let b = DmaStream::new(0x1000, 8).unwrap();
    assert_eq!(b.offset_of(0x1000, 8), Some(0));
    assert_eq!(b.offset_of(0x1007, 1), Some(7));
    assert_eq!(b.offset_of(0x1008, 0), Some(8));
    assert_eq!(b.offset_of(0x1008, 1), None);
    assert_eq!(b.offset_of(0x0fff, 2), None);
    assert_eq!(b.offset_of(0x1001, 8), None);
    assert_eq!(b.offset_of(u64::MAX, 1), None);
}

#[test]
fn an_argument_vector_ends_at_its_first_null_pointer() {
    assert_eq!(count_until_null(&[0x1000, 0x2000, 0, 0x3000, 0], 128), Some(2));
    assert_eq!(count_until_null(&[0], 128), Some(0));
    assert_eq!(count_until_null(&[0x1000, 0x2000, 0], 3), Some(2));
    // The null pointer must stand within the bound.
    assert_eq!(count_until_null(&[0x1000, 0x2000, 0], 2), None);
    assert_eq!(count_until_null(&[0], 0), None);
    assert_eq!(count_until_null(&[0x1000, 0x2000], 128), None);
    assert_eq!(count_until_null(&[], 128), None);
    assert_eq!(count_until_null(&[usize::MAX; 200], 128), None);
}
