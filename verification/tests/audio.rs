use transcriber::audio::{encode_wav, play_done, play_start, Tone};

#[test]
fn wav_header_describes_16_bit_mono() {
    let wav = encode_wav(&[1, -2], 16000);
    assert_eq!(wav.len(), 48);
    assert_eq!(&wav[0..4], b"RIFF");
    assert_eq!(u32::from_le_bytes([wav[4], wav[5], wav[6], wav[7]]), 40);
    assert_eq!(&wav[8..16], b"WAVEfmt ");
    assert_eq!(u32::from_le_bytes([wav[16], wav[17], wav[18], wav[19]]), 16);
    assert_eq!(u16::from_le_bytes([wav[20], wav[21]]), 1);
    assert_eq!(u16::from_le_bytes([wav[22], wav[23]]), 1);
    assert_eq!(u32::from_le_bytes([wav[24], wav[25], wav[26], wav[27]]), 16000);
    assert_eq!(u32::from_le_bytes([wav[28], wav[29], wav[30], wav[31]]), 32000);
    assert_eq!(u16::from_le_bytes([wav[32], wav[33]]), 2);
    assert_eq!(u16::from_le_bytes([wav[34], wav[35]]), 16);
    assert_eq!(&wav[36..40], b"data");
    assert_eq!(u32::from_le_bytes([wav[40], wav[41], wav[42], wav[43]]), 4);
    assert_eq!(&wav[44..], &[1, 0, 0xfe, 0xff]);
}

#[test]
fn empty_recording_is_a_bare_header() {
    assert_eq!(encode_wav(&[], 44100).len(), 44);
}

#[test]
fn chirps_rise_then_fall() {
    assert_eq!(
        play_start(),
        vec![Tone { freq_hz: 880, duration_ms: 80 }, Tone { freq_hz: 1320, duration_ms: 80 }]
    );
    let mut done = play_done();
    done.reverse();
    assert_eq!(done, play_start());
}
