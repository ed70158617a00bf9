use std::cell::RefCell;
use std::rc::Rc;

use inky_screen::config::{
    Builder, Dimensions, InvalidConfiguration, MAX_GATE_OUTPUTS, MAX_SOURCE_OUTPUTS,
};
use inky_screen::geometry::Rotation;
use inky_screen::lut::LUT_FAST_YELLOW;
use inky_screen::screen::Screen;
use ssd1675::{Display, DisplayInterface};

fn panel() -> Dimensions {
    Dimensions { rows: 212, cols: 104 }
}

#[test]
fn build_accepts_the_panel() {
    let config = Builder::new()
        .dimensions(panel())
        .rotation(Rotation::Rotate270)
        .lut(&LUT_FAST_YELLOW)
        .yellow(true)
        .build()
        .unwrap();
    assert_eq!(config.rows(), 212);
    assert_eq!(config.cols(), 104);
    assert_eq!(config.rotation(), Rotation::Rotate270);
    assert_eq!(config.lut(), &LUT_FAST_YELLOW[..]);
    assert!(config.is_yellow());
}

#[test]
fn build_defaults() {
    let config = Builder::new().dimensions(panel()).lut(&LUT_FAST_YELLOW).build().unwrap();
    assert_eq!(config.rotation(), Rotation::Rotate0);
    assert!(!config.is_yellow());
}

#[test]
fn build_keeps_the_lut_byte_for_byte() {
    let mut lut = [0u8; 70];
    for (i, byte) in lut.iter_mut().enumerate() {
        *byte = (i * 3 + 1) as u8;
    }
    let config = Builder::new().dimensions(panel()).lut(&lut).build().unwrap();
    assert_eq!(config.lut().len(), 70);
    assert_eq!(config.lut(), &lut[..]);
    for group in 0..5 {
        assert_eq!(config.lut()[group * 7], lut[group * 7]);
    }
}

#[test]
fn build_later_setting_wins() {
    let other = [9u8; 70];
    let config = Builder::new()
        .dimensions(Dimensions { rows: 1, cols: 8 })
        .dimensions(panel())
        .rotation(Rotation::Rotate90)
        .rotation(Rotation::Rotate180)
        .lut(&LUT_FAST_YELLOW)
        .lut(&other)
        .yellow(true)
        .yellow(false)
        .build()
        .unwrap();
    assert_eq!((config.rows(), config.cols()), (212, 104));
    assert_eq!(config.rotation(), Rotation::Rotate180);
    assert_eq!(config.lut(), &other[..]);
    assert!(!config.is_yellow());
}

#[test]
fn build_without_dimensions() {
    let built = Builder::new().lut(&LUT_FAST_YELLOW).build();
    assert_eq!(built, Err(InvalidConfiguration::MissingDimensions));
    assert_eq!(Builder::new().build(), Err(InvalidConfiguration::MissingDimensions));
}

#[test]
fn build_with_empty_geometry() {
    for (rows, cols) in [(0, 104), (212, 0), (0, 0)] {
        let built =
            Builder::new().dimensions(Dimensions { rows, cols }).lut(&LUT_FAST_YELLOW).build();
        assert_eq!(built, Err(InvalidConfiguration::EmptyGeometry));
    }
}

#[test]
fn build_with_columns_not_a_multiple_of_eight() {
    for cols in [1, 7, 9, 100, 103, 105, 255] {
        let built = Builder::new()
            .dimensions(Dimensions { rows: 212, cols })
            .lut(&LUT_FAST_YELLOW)
            .build();
        assert_eq!(built, Err(InvalidConfiguration::ColumnsNotByteAligned));
    }
}

#[test]
fn build_with_too_many_rows() {
    assert_eq!(MAX_GATE_OUTPUTS, 296);
    let ok = Builder::new().dimensions(Dimensions { rows: 296, cols: 104 }).lut(&LUT_FAST_YELLOW);
    assert!(ok.build().is_ok());
    for rows in [297, 1000, u16::MAX] {
        let built = Builder::new()
            .dimensions(Dimensions { rows, cols: 104 })
            .lut(&LUT_FAST_YELLOW)
            .build();
        assert_eq!(built, Err(InvalidConfiguration::TooManyRows));
    }
}

#[test]
fn build_with_too_many_columns() {
    assert_eq!(MAX_SOURCE_OUTPUTS, 160);
    let ok = Builder::new().dimensions(Dimensions { rows: 212, cols: 160 }).lut(&LUT_FAST_YELLOW);
    assert!(ok.build().is_ok());
    for cols in [168, 200, 248] {
        let built = Builder::new()
            .dimensions(Dimensions { rows: 212, cols })
            .lut(&LUT_FAST_YELLOW)
            .build();
        assert_eq!(built, Err(InvalidConfiguration::TooManyColumns));
    }
}

#[test]
fn build_without_lut() {
    let built = Builder::new().dimensions(panel()).build();
    assert_eq!(built, Err(InvalidConfiguration::MissingLut));
}

#[test]
fn build_with_wrong_lut_length() {
    let long = [0u8; 71];
    for lut in [&LUT_FAST_YELLOW[..69], &LUT_FAST_YELLOW[..0], &long[..]] {
        let built = Builder::new().dimensions(panel()).lut(lut).build();
        assert_eq!(built, Err(InvalidConfiguration::LutLength));
    }
}

#[test]
fn build_reports_the_first_fault() {
    let short = [0u8; 3];
    let both = Builder::new().dimensions(Dimensions { rows: 300, cols: 100 }).lut(&short);
    assert_eq!(both.build(), Err(InvalidConfiguration::ColumnsNotByteAligned));
    let both = Builder::new().dimensions(Dimensions { rows: 300, cols: 168 }).lut(&short);
    assert_eq!(both.build(), Err(InvalidConfiguration::TooManyRows));
    let both = Builder::new().dimensions(Dimensions { rows: 0, cols: 3 });
    assert_eq!(both.build(), Err(InvalidConfiguration::EmptyGeometry));
    let both = Builder::new().dimensions(Dimensions { rows: 212, cols: 168 }).lut(&short);
    assert_eq!(both.build(), Err(InvalidConfiguration::TooManyColumns));
}

type Traffic = Rc<RefCell<Vec<(u8, Vec<u8>)>>>;

struct Recorder {
    traffic: Traffic,
    resets: Rc<RefCell<usize>>,
}

impl DisplayInterface for Recorder {
    type Error = ();

    fn send_command(&mut self, command: u8) -> Result<(), ()> {
        self.traffic.borrow_mut().push((command, Vec::new()));
        Ok(())
    }

    fn send_data(&mut self, data: &[u8]) -> Result<(), ()> {
        self.traffic.borrow_mut().last_mut().unwrap().1.extend_from_slice(data);
        Ok(())
    }

    fn reset<D: embedded_hal::blocking::delay::DelayMs<u8>>(&mut self, _delay: &mut D) {
        *self.resets.borrow_mut() += 1;
    }

    fn busy_wait(&self) {}
}

struct NoDelay;

impl embedded_hal::blocking::delay::DelayMs<u8> for NoDelay {
    fn delay_ms(&mut self, _ms: u8) {}
}

fn degrees(rotation: ssd1675::Rotation) -> u16 {
    match rotation {
        ssd1675::Rotation::Rotate0 => 0,
        ssd1675::Rotation::Rotate90 => 90,
        ssd1675::Rotation::Rotate180 => 180,
        ssd1675::Rotation::Rotate270 => 270,
    }
}

#[test]
fn controller_config_carries_the_settings() {
    let cases = [
        (212, 104, Rotation::Rotate0),
        (212, 104, Rotation::Rotate90),
        (296, 160, Rotation::Rotate180),
        (1, 8, Rotation::Rotate270),
    ];
    for (rows, cols, rotation) in cases {
        let config = Builder::new()
            .dimensions(Dimensions { rows, cols })
            .rotation(rotation)
            .lut(&LUT_FAST_YELLOW)
            .build()
            .unwrap();
        let recorder =
            Recorder { traffic: Rc::new(RefCell::new(Vec::new())), resets: Rc::new(RefCell::new(0)) };
        let display = Display::new(recorder, config.controller_config());
        assert_eq!(display.rows(), rows);
        assert_eq!(display.cols(), cols);
        assert_eq!(degrees(display.rotation()), rotation.degrees());
    }
}

#[test]
fn controller_config_carries_the_lut() {
    let traffic: Traffic = Rc::new(RefCell::new(Vec::new()));
    let resets = Rc::new(RefCell::new(0));
    let recorder = Recorder { traffic: traffic.clone(), resets: resets.clone() };
    let (config, controller, _surface) = Screen::new().into_parts();
    assert_eq!(config.lut(), &LUT_FAST_YELLOW[..]);
    let mut display = Display::new(recorder, controller);
    assert_eq!(display.rows(), 212);
    assert_eq!(display.cols(), 104);
    assert_eq!(degrees(display.rotation()), 270);
    display.reset(&mut NoDelay).unwrap();
    assert_eq!(*resets.borrow(), 1);
    let sent = traffic.borrow();
    let luts: Vec<&(u8, Vec<u8>)> = sent.iter().filter(|frame| frame.0 == 0x32).collect();
    assert_eq!(luts.len(), 1);
    assert_eq!(luts[0].1, LUT_FAST_YELLOW.to_vec());
    assert_eq!(luts[0].1.len(), 70);
    for group in 0..5 {
        assert_eq!(luts[0].1[group * 7], LUT_FAST_YELLOW[group * 7]);
    }
    let output: Vec<&(u8, Vec<u8>)> = sent.iter().filter(|frame| frame.0 == 0x01).collect();
    assert_eq!(output[0].1, vec![212, 0, 0]);
}
