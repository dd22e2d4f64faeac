use bass_sys::types::{BassDx8Gargle, BassInfo, BassRecordInfo, WaveFormatEx};

#[test]
fn record_info_new_keeps_fields() {
    let r = BassRecordInfo::new(1, 2, 3, -1, 44100);
    assert_eq!(r.flags, 1);
    assert_eq!(r.supported_formats, 2);
    assert_eq!(r.number_of_inputs, 3);
    assert_eq!(r.single_in, -1);
    assert_eq!(r.current_frequency, 44100);
}

#[test]
fn record_info_default_is_zero() {
    let r = BassRecordInfo::default();
    assert_eq!(
        (r.flags, r.supported_formats, r.number_of_inputs, r.single_in, r.current_frequency),
        (0, 0, 0, 0, 0)
    );
}

#[test]
fn wave_format_new_keeps_fields() {
    let w = WaveFormatEx::new(1, 2, 44100, 176400, 4, 16, 0);
    assert_eq!(w.format_tag, 1);
    assert_eq!(w.channels_number, 2);
    assert_eq!(w.samples_per_second, 44100);
    assert_eq!(w.average_bytes_per_second, 176400);
    assert_eq!(w.block_align, 4);
    assert_eq!(w.bits_per_sample, 16);
    assert_eq!(w.size, 0);
}

#[test]
fn wave_format_default_is_zero() {
    let w = WaveFormatEx::default();
    assert_eq!(w.format_tag, 0);
    assert_eq!(w.channels_number, 0);
    assert_eq!(w.samples_per_second, 0);
    assert_eq!(w.average_bytes_per_second, 0);
    assert_eq!(w.block_align, 0);
    assert_eq!(w.bits_per_sample, 0);
    assert_eq!(w.size, 0);
}

#[test]
fn gargle_new_keeps_fields() {
    let g = BassDx8Gargle::new(20, 1);
    assert_eq!(g.rate_hz, 20);
    assert_eq!(g.wave_shape, 1);
    let d = BassDx8Gargle::default();
    assert_eq!((d.rate_hz, d.wave_shape), (0, 0));
}

#[test]
fn info_default_is_zero() {
    let i = BassInfo::default();
    assert_eq!(i.flags, 0);
    assert_eq!(i.reserved, [0u32; 7]);
    assert_eq!(i.minbuf, 0);
    assert_eq!(i.dsver, 0);
    assert_eq!(i.latency, 0);
    assert_eq!(i.initflags, 0);
    assert_eq!(i.speakers, 0);
    assert_eq!(i.freq, 0);
}

#[test]
fn records_clone_equal_fields() {
    let r = BassRecordInfo::new(5, 6, 7, 1, 8000);
    let c = r.clone();
    assert_eq!(c.current_frequency, 8000);
    assert_eq!(c.single_in, 1);
}
