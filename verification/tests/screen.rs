use inky_screen::color::Color;
use inky_screen::geometry::Rotation;
use inky_screen::lut::LUT_FAST_YELLOW;
use inky_screen::screen::Screen;
use inky_screen::wiring::{
    bring_up, pins, PinSetup, PinStep, Role, PIN_BUSY, PIN_CS, PIN_DC, PIN_RESET,
    SPI_BITS_PER_WORD, SPI_DEVICE, SPI_MAX_SPEED_HZ, SPI_MODE,
};

#[test]
fn screen_has_the_fixed_settings() {
    let screen = Screen::new();
    assert_eq!(screen.config().rows(), 212);
    assert_eq!(screen.config().cols(), 104);
    assert_eq!(screen.config().rotation(), Rotation::Rotate270);
    assert_eq!(screen.config().lut(), &LUT_FAST_YELLOW[..]);
    assert!(screen.config().is_yellow());
}

#[test]
fn screen_starts_with_zeroed_planes() {
    let screen = Screen::new();
    assert_eq!(screen.surface().rotation(), Rotation::Rotate270);
    assert_eq!(screen.surface().dimensions(), (212, 104));
    let (black, accent) = screen.surface().planes();
    assert_eq!(black.len(), 2756);
    assert_eq!(accent.len(), 2756);
    assert!(black.iter().all(|b| *b == 0));
    assert!(accent.iter().all(|b| *b == 0));
}

#[test]
fn screen_draws_on_its_surface() {
    let mut screen = Screen::new();
    screen.surface_mut().clear(Color::White);
    screen.surface_mut().set_pixel(10, 10, Color::Accent);
    assert_eq!(screen.surface().read_pixel(10, 10), Some(Color::Accent));
    assert_eq!(screen.surface().read_pixel(11, 10), Some(Color::White));
    let (black, accent) = screen.surface().planes();
    assert!(black.iter().all(|b| *b == 0xFF));
    assert_eq!(accent.iter().map(|b| b.count_ones()).sum::<u32>(), 1);
    // Logical (10, 10) is column 93 of row 10: byte 10 * 13 + 11, bit 7 - 5.
    assert_eq!(accent[141], 0x04);
    assert_eq!(screen.config().rotation(), Rotation::Rotate270);
}

#[test]
fn screen_clips_outside_draws() {
    let mut screen = Screen::new();
    screen.surface_mut().clear(Color::White);
    let before = (screen.surface().planes().0.to_vec(), screen.surface().planes().1.to_vec());
    screen.surface_mut().set_pixel(-1, 0, Color::Black);
    screen.surface_mut().set_pixel(1000, 0, Color::Black);
    let after = (screen.surface().planes().0.to_vec(), screen.surface().planes().1.to_vec());
    assert_eq!(before, after);
}

#[test]
fn screen_comes_apart() {
    let mut screen = Screen::new();
    screen.surface_mut().set_pixel(0, 0, Color::White);
    let (config, _controller, surface) = screen.into_parts();
    assert_eq!(config.rows(), 212);
    assert_eq!(surface.read_pixel(0, 0), Some(Color::White));
    assert_eq!(surface.read_pixel(1, 0), Some(Color::Black));
}

#[test]
fn wiring_constants() {
    assert_eq!(SPI_DEVICE, "/dev/spidev0.0");
    assert_eq!(SPI_BITS_PER_WORD, 8);
    assert_eq!(SPI_MAX_SPEED_HZ, 4_000_000);
    assert_eq!(SPI_MODE, 0);
    assert_eq!((PIN_CS, PIN_BUSY, PIN_DC, PIN_RESET), (8, 17, 22, 27));
}

#[test]
fn wiring_lines() {
    let out = Role::Output { idle_high: true };
    assert_eq!(
        pins(),
        vec![
            PinSetup { number: 8, role: out },
            PinSetup { number: 17, role: Role::Input },
            PinSetup { number: 22, role: out },
            PinSetup { number: 27, role: out },
        ]
    );
}

#[test]
fn wiring_bring_up_steps() {
    let steps = bring_up(&pins());
    assert_eq!(
        steps,
        vec![
            PinStep::Export { pin: 8 },
            PinStep::AwaitExported { pin: 8 },
            PinStep::SetDirection { pin: 8, output: true },
            PinStep::SetValue { pin: 8, high: true },
            PinStep::Export { pin: 17 },
            PinStep::AwaitExported { pin: 17 },
            PinStep::SetDirection { pin: 17, output: false },
            PinStep::Export { pin: 22 },
            PinStep::AwaitExported { pin: 22 },
            PinStep::SetDirection { pin: 22, output: true },
            PinStep::SetValue { pin: 22, high: true },
            PinStep::Export { pin: 27 },
            PinStep::AwaitExported { pin: 27 },
            PinStep::SetDirection { pin: 27, output: true },
            PinStep::SetValue { pin: 27, high: true },
        ]
    );
    assert_eq!(steps.len(), 15);
}

#[test]
fn wiring_bring_up_of_other_lines() {
    assert_eq!(bring_up(&Vec::new()), Vec::new());
    let low = PinSetup { number: 5, role: Role::Output { idle_high: false } };
    assert_eq!(
        bring_up(&vec![low]),
        vec![
            PinStep::Export { pin: 5 },
            PinStep::AwaitExported { pin: 5 },
            PinStep::SetDirection { pin: 5, output: true },
            PinStep::SetValue { pin: 5, high: false },
        ]
    );
}
