use vibevoicecli::audio::{AudioWriter, WavFormat};

#[test]
fn output_is_mono_16_bit_pcm() {
    assert_eq!(
        AudioWriter::output_format(22050),
        WavFormat { channels: 1, sample_rate: 22050, bits_per_sample: 16, integer_samples: true }
    );
    assert_eq!(AudioWriter::output_format(48000).sample_rate, 48000);
}
