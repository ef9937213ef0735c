use ctru::services::ndsp::wave::{WaveInfo, WaveStatus};
use ctru::services::ndsp::{AudioFormat, Command, Ndsp, NdspError};
use ctru::services::ServiceCounter;

fn nothing() {}

fn mixer() -> Ndsp<fn()> {
    let mut counter = ServiceCounter::new();
    Ndsp::init(&mut counter, || -> Result<(), i32> { Ok(()) }, nothing as fn()).unwrap()
}

#[test]
fn new_wave_is_free_and_counts_whole_samples() {
    let wave = WaveInfo::new(vec![0u8; 10], AudioFormat::PCM16Stereo, false);
    assert_eq!(wave.get_status(), WaveStatus::Free);
    assert_eq!(wave.get_channel(), None);
    assert_eq!(wave.get_sample_count(), 2);
    assert_eq!(wave.get_format(), AudioFormat::PCM16Stereo);
    assert!(!wave.is_looping());
    assert_eq!(wave.get_buffer(), &vec![0u8; 10]);

    assert_eq!(WaveInfo::new(vec![1u8; 10], AudioFormat::PCM8Mono, true).get_sample_count(), 10);
    assert_eq!(WaveInfo::new(vec![1u8; 10], AudioFormat::PCM16Mono, true).get_sample_count(), 5);
    assert_eq!(WaveInfo::new(vec![1u8; 11], AudioFormat::PCM8Stereo, true).get_sample_count(), 5);
    assert_eq!(WaveInfo::new(Vec::new(), AudioFormat::PCM8Stereo, true).get_sample_count(), 0);
    assert!(WaveInfo::new(vec![1u8; 3], AudioFormat::PCM8Mono, true).is_looping());
}

#[test]
fn busy_states() {
    assert!(!WaveStatus::Free.busy());
    assert!(WaveStatus::Queued.busy());
    assert!(WaveStatus::Playing.busy());
    assert!(!WaveStatus::Done.busy());
}

#[test]
fn queueing_a_free_wave_stamps_and_marks_it() {
    let mut ndsp = mixer();
    let channel = ndsp.channel(7).unwrap();
    let mut wave = WaveInfo::new(vec![5u8; 8], AudioFormat::PCM16Mono, false);
    assert_eq!(channel.queue_wave(&mut wave), Ok(Command::AddWaveBuffer(7)));
    assert_eq!(wave.get_status(), WaveStatus::Queued);
    assert_eq!(wave.get_channel(), Some(7));
    assert_eq!(wave.get_sample_count(), 4);
    assert_eq!(wave.get_buffer(), &vec![5u8; 8]);
}

#[test]
fn queueing_a_busy_wave_is_refused() {
    let mut ndsp = mixer();
    let first = ndsp.channel(1).unwrap();
    let second = ndsp.channel(2).unwrap();
    let mut wave = WaveInfo::new(vec![5u8; 8], AudioFormat::PCM8Mono, false);
    assert!(first.queue_wave(&mut wave).is_ok());
    assert_eq!(first.queue_wave(&mut wave), Err(NdspError::WaveBusy(1)));
    assert_eq!(second.queue_wave(&mut wave), Err(NdspError::WaveBusy(2)));
    assert_eq!(wave.get_channel(), Some(1));
    assert_eq!(wave.get_status(), WaveStatus::Queued);
    assert!(wave.update_status(WaveStatus::Playing));
    assert_eq!(second.queue_wave(&mut wave), Err(NdspError::WaveBusy(2)));
    assert_eq!(wave.get_channel(), Some(1));
    assert_eq!(wave.get_status(), WaveStatus::Playing);
}

#[test]
fn a_wave_played_to_the_end_can_be_queued_again() {
    let mut ndsp = mixer();
    let first = ndsp.channel(1).unwrap();
    let second = ndsp.channel(2).unwrap();
    let mut wave = WaveInfo::new(vec![5u8; 8], AudioFormat::PCM8Mono, false);
    assert!(first.queue_wave(&mut wave).is_ok());
    assert!(wave.update_status(WaveStatus::Playing));
    assert!(wave.update_status(WaveStatus::Done));
    assert_eq!(second.queue_wave(&mut wave), Ok(Command::AddWaveBuffer(2)));
    assert_eq!(wave.get_channel(), Some(2));
    assert_eq!(wave.get_status(), WaveStatus::Queued);
}

#[test]
fn waves_are_requested_in_the_order_queued() {
    let mut ndsp = mixer();
    let channel = ndsp.channel(0).unwrap();
    let mut b1 = WaveInfo::new(vec![1u8; 4], AudioFormat::PCM8Mono, false);
    let mut b2 = WaveInfo::new(vec![2u8; 4], AudioFormat::PCM8Mono, false);
    let mut b3 = WaveInfo::new(vec![3u8; 4], AudioFormat::PCM8Mono, false);
    let requests = vec![
        channel.queue_wave(&mut b1),
        channel.queue_wave(&mut b2),
        channel.queue_wave(&mut b3),
    ];
    assert_eq!(requests, vec![Ok(Command::AddWaveBuffer(0)); 3]);
    for wave in [&b1, &b2, &b3] {
        assert_eq!(wave.get_status(), WaveStatus::Queued);
        assert_eq!(wave.get_channel(), Some(0));
    }
}

#[test]
fn impossible_report_is_not_recorded() {
    let mut wave = WaveInfo::new(vec![5u8; 8], AudioFormat::PCM8Mono, false);
    assert!(!wave.update_status(WaveStatus::Playing));
    assert_eq!(wave.get_status(), WaveStatus::Free);
    assert!(!wave.update_status(WaveStatus::Queued));
    assert_eq!(wave.get_status(), WaveStatus::Free);
    assert!(wave.update_status(WaveStatus::Done));
    assert_eq!(wave.get_status(), WaveStatus::Done);
    assert!(wave.update_status(WaveStatus::Free));
    assert_eq!(wave.get_status(), WaveStatus::Free);
}

#[test]
fn set_sample_count_within_bounds() {
    let mut wave = WaveInfo::new(vec![5u8; 9], AudioFormat::PCM16Stereo, false);
    assert_eq!(wave.get_sample_count(), 2);
    assert_eq!(wave.set_sample_count(1), Ok(()));
    assert_eq!(wave.get_sample_count(), 1);
    assert_eq!(wave.set_sample_count(2), Ok(()));
    assert_eq!(wave.get_sample_count(), 2);
    assert_eq!(wave.set_sample_count(0), Ok(()));
    assert_eq!(wave.get_sample_count(), 0);
}

#[test]
fn set_sample_count_out_of_bounds() {
    let mut wave = WaveInfo::new(vec![5u8; 9], AudioFormat::PCM16Stereo, false);
    assert_eq!(wave.set_sample_count(3), Err(NdspError::SampleCountOutOfBounds(3, 2)));
    assert_eq!(wave.get_sample_count(), 2);
    assert_eq!(
        wave.set_sample_count(u32::MAX),
        Err(NdspError::SampleCountOutOfBounds(u32::MAX, 2))
    );
}

#[test]
fn set_sample_count_on_a_busy_wave() {
    let mut ndsp = mixer();
    let channel = ndsp.channel(12).unwrap();
    let mut wave = WaveInfo::new(vec![5u8; 9], AudioFormat::PCM8Mono, false);
    assert!(channel.queue_wave(&mut wave).is_ok());
    assert_eq!(wave.set_sample_count(1), Err(NdspError::WaveBusy(12)));
    assert_eq!(wave.set_sample_count(100), Err(NdspError::WaveBusy(12)));
    assert_eq!(wave.get_sample_count(), 9);
    assert!(wave.update_status(WaveStatus::Done));
    assert_eq!(wave.set_sample_count(1), Ok(()));
    assert_eq!(wave.get_sample_count(), 1);
}

#[test]
fn discarding_a_playing_wave_clears_its_channel() {
    let mut ndsp = mixer();
    let channel = ndsp.channel(4).unwrap();
    let mut wave = WaveInfo::new(vec![9u8; 6], AudioFormat::PCM8Stereo, true);
    assert!(channel.queue_wave(&mut wave).is_ok());
    assert!(wave.update_status(WaveStatus::Playing));
    let (command, samples) = wave.discard();
    assert_eq!(command, Some(Command::ClearQueue(4)));
    assert_eq!(samples, vec![9u8; 6]);
}

#[test]
fn discarding_a_queued_wave_clears_its_channel() {
    let mut ndsp = mixer();
    let channel = ndsp.channel(20).unwrap();
    let mut wave = WaveInfo::new(vec![9u8; 6], AudioFormat::PCM8Stereo, true);
    assert!(channel.queue_wave(&mut wave).is_ok());
    assert_eq!(wave.discard().0, Some(Command::ClearQueue(20)));
}

#[test]
fn discarding_an_idle_wave_needs_nothing() {
    let mut ndsp = mixer();
    let channel = ndsp.channel(4).unwrap();
    let fresh = WaveInfo::new(vec![9u8; 6], AudioFormat::PCM8Stereo, true);
    assert_eq!(fresh.discard(), (None, vec![9u8; 6]));
    let mut played = WaveInfo::new(vec![9u8; 6], AudioFormat::PCM8Stereo, true);
    assert!(channel.queue_wave(&mut played).is_ok());
    assert!(played.update_status(WaveStatus::Done));
    assert_eq!(played.discard().0, None);
    let mut cleared = WaveInfo::new(vec![9u8; 6], AudioFormat::PCM8Stereo, true);
    assert!(channel.queue_wave(&mut cleared).is_ok());
    assert!(cleared.update_status(WaveStatus::Free));
    assert_eq!(cleared.discard().0, None);
}
