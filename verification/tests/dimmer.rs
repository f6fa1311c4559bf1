use lightctl::dimmer::{dimmer_command, scale_sample, DimmerCommand};

#[test]
fn scaling_divides_the_ten_bit_sample_by_four() {
    assert_eq!(scale_sample(0), 0);
    assert_eq!(scale_sample(3), 0);
    assert_eq!(scale_sample(4), 1);
    assert_eq!(scale_sample(512), 128);
    assert_eq!(scale_sample(1023), 255);
}

#[test]
fn small_samples_switch_the_outputs_off() {
    assert_eq!(dimmer_command(0), DimmerCommand::Off);
    assert_eq!(dimmer_command(3), DimmerCommand::Off);
}

#[test]
fn larger_samples_drive_the_scaled_duty() {
    assert_eq!(dimmer_command(4), DimmerCommand::On { duty: 1 });
    assert_eq!(dimmer_command(100), DimmerCommand::On { duty: 25 });
    assert_eq!(dimmer_command(1023), DimmerCommand::On { duty: 255 });
}
