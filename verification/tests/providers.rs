//! Tests for the data providers.

use bitbelay::providers::AvailableProviders;
use bitbelay::providers::Provider;
use bitbelay::providers::ascii::AlphanumericProvider;
use bitbelay::providers::numeric::Unsigned64BitProvider;

#[test]
fn ascii_it_correctly_calculates_bytes_per_input() {
    let mut provider = AlphanumericProvider::new(10);
    let data = provider.provide(1);
    assert_eq!(data[0].len(), provider.bytes_per_input());
}

#[test]
fn numeric_it_correctly_calculates_bytes_per_input() {
    let mut provider = Unsigned64BitProvider::new(10);
    let data = provider.provide(1);
    assert_eq!(data[0].len(), provider.bytes_per_input());
    // Each u64 is eight bytes, so ten of them make eighty bytes.
    assert_eq!(provider.bytes_per_input(), 80);
}

#[test]
fn ascii_provider_hands_out_alphanumeric_bytes() {
    let mut provider = AlphanumericProvider::new(32);
    let data = provider.provide(20);
    assert_eq!(data.len(), 20);
    for sequence in &data {
        assert_eq!(sequence.len(), 32);
        for byte in sequence {
            assert!(byte.is_ascii_alphanumeric());
        }
    }
}

#[test]
fn available_providers_carry_their_input_lengths() {
    assert_eq!(AvailableProviders::ASCIIAlphanumericShort.input_length(), 8);
    assert_eq!(AvailableProviders::ASCIIAlphanumeric.input_length(), 64);
    assert_eq!(AvailableProviders::ASCIIAlphanumericLong.input_length(), 4096);
    assert_eq!(AvailableProviders::U64Short.input_length(), 8);
    assert_eq!(AvailableProviders::U64.input_length(), 64);
    assert_eq!(AvailableProviders::U64Long.input_length(), 4096);
}
