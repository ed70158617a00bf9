use inky_screen::color::Color;
use inky_screen::command::{Command, Frame};
use inky_screen::config::{Builder, Dimensions, PanelConfig};
use inky_screen::driver::{
    init_frames, refresh_frames, sleep_frames, upload_frames, Action, DriverState, Event, Fault,
    PanelDriver,
};
use inky_screen::geometry::Rotation;
use inky_screen::lut::LUT_FAST_YELLOW;
use inky_screen::screen::Screen;

fn frame(opcode: u8, data: &[u8]) -> Frame {
    Frame { opcode, data: data.to_vec() }
}

fn panel_config() -> PanelConfig<'static> {
    Builder::new()
        .dimensions(Dimensions { rows: 212, cols: 104 })
        .rotation(Rotation::Rotate270)
        .lut(&LUT_FAST_YELLOW)
        .yellow(true)
        .build()
        .unwrap()
}

fn ready_driver() -> PanelDriver<'static> {
    let mut driver = PanelDriver::new(panel_config());
    driver.step(Event::Start);
    driver.step(Event::Completed);
    driver.step(Event::Completed);
    assert_eq!(driver.state(), DriverState::Ready);
    driver
}

fn init_expected() -> Vec<Frame> {
    vec![
        frame(0x01, &[212, 0, 0x00]),
        frame(0x0C, &[0x8B, 0x9C, 0x96]),
        frame(0x2C, &[0x3C]),
        frame(0x3A, &[0x07]),
        frame(0x3B, &[0x04]),
        frame(0x11, &[0x03]),
        frame(0x44, &[0, 12]),
        frame(0x45, &[0, 0, 211, 0]),
        frame(0x32, &LUT_FAST_YELLOW),
    ]
}

#[test]
fn command_opcodes() {
    let bytes = [1u8, 2, 3];
    let cases: Vec<(Command, u8)> = vec![
        (Command::DriverOutputControl { rows: 1, gate_scan: 0 }, 0x01),
        (Command::SoftStartControl(1, 2, 3), 0x0C),
        (Command::DeepSleep(1), 0x10),
        (Command::DataEntryMode(3), 0x11),
        (Command::MasterActivation, 0x20),
        (Command::UpdateControl2(0xC7), 0x22),
        (Command::WriteRamBlack(&bytes), 0x24),
        (Command::WriteRamRed(&bytes), 0x26),
        (Command::WriteVcom(0x3C), 0x2C),
        (Command::WriteLut(&bytes), 0x32),
        (Command::DummyLinePeriod(7), 0x3A),
        (Command::GateLineWidth(4), 0x3B),
        (Command::RamXWindow { first_byte: 0, last_byte: 12 }, 0x44),
        (Command::RamYWindow { first_row: 0, last_row: 211 }, 0x45),
        (Command::RamXCounter(0), 0x4E),
        (Command::RamYCounter(0), 0x4F),
    ];
    for (command, opcode) in cases {
        assert_eq!(command.opcode(), opcode);
        assert_eq!(command.encode().opcode, opcode);
    }
}

#[test]
fn command_data_bytes() {
    let bytes = [9u8, 8, 7, 6];
    let rows = Command::DriverOutputControl { rows: 0x0128, gate_scan: 5 };
    assert_eq!(rows.data(), vec![0x28, 0x01, 5]);
    assert_eq!(Command::SoftStartControl(1, 2, 3).data(), vec![1, 2, 3]);
    assert_eq!(Command::DeepSleep(1).data(), vec![1]);
    assert_eq!(Command::DataEntryMode(3).data(), vec![3]);
    assert_eq!(Command::MasterActivation.data(), Vec::<u8>::new());
    assert_eq!(Command::UpdateControl2(0xC7).data(), vec![0xC7]);
    assert_eq!(Command::WriteRamBlack(&bytes).data(), bytes.to_vec());
    assert_eq!(Command::WriteRamRed(&bytes[1..]).data(), vec![8, 7, 6]);
    assert_eq!(Command::WriteVcom(0x3C).data(), vec![0x3C]);
    assert_eq!(Command::WriteLut(&LUT_FAST_YELLOW).data(), LUT_FAST_YELLOW.to_vec());
    assert_eq!(Command::DummyLinePeriod(7).data(), vec![7]);
    assert_eq!(Command::GateLineWidth(4).data(), vec![4]);
    assert_eq!(Command::RamXWindow { first_byte: 1, last_byte: 12 }.data(), vec![1, 12]);
    let window = Command::RamYWindow { first_row: 0x0102, last_row: 0xFFFE };
    assert_eq!(window.data(), vec![0x02, 0x01, 0xFE, 0xFF]);
    assert_eq!(Command::RamXCounter(3).data(), vec![3]);
    assert_eq!(Command::RamYCounter(0x0123).data(), vec![0x23, 0x01]);
    assert_eq!(Command::RamYCounter(u16::MAX).data(), vec![0xFF, 0xFF]);
}

#[test]
fn command_encodes_to_a_frame() {
    assert_eq!(Command::UpdateControl2(0xC7).encode(), frame(0x22, &[0xC7]));
    assert_eq!(Command::MasterActivation.encode(), frame(0x20, &[]));
    assert_eq!(Command::RamYCounter(0).encode(), frame(0x4F, &[0, 0]));
}

#[test]
fn init_sequence_in_order() {
    assert_eq!(init_frames(&panel_config()), init_expected());
}

#[test]
fn init_sequence_of_the_largest_panel() {
    let config = Builder::new()
        .dimensions(Dimensions { rows: 296, cols: 160 })
        .lut(&LUT_FAST_YELLOW)
        .build()
        .unwrap();
    let frames = init_frames(&config);
    assert_eq!(frames.len(), 9);
    assert_eq!(frames[0], frame(0x01, &[0x28, 0x01, 0x00]));
    assert_eq!(frames[6], frame(0x44, &[0, 19]));
    assert_eq!(frames[7], frame(0x45, &[0, 0, 0x27, 0x01]));
}

#[test]
fn init_sequence_of_the_smallest_panel() {
    let config = Builder::new()
        .dimensions(Dimensions { rows: 1, cols: 8 })
        .lut(&LUT_FAST_YELLOW)
        .build()
        .unwrap();
    let frames = init_frames(&config);
    assert_eq!(frames[0], frame(0x01, &[1, 0, 0]));
    assert_eq!(frames[6], frame(0x44, &[0, 0]));
    assert_eq!(frames[7], frame(0x45, &[0, 0, 0, 0]));
}

#[test]
fn init_sequence_ends_with_the_lut() {
    let mut lut = [0u8; 70];
    for (i, byte) in lut.iter_mut().enumerate() {
        *byte = 255 - i as u8;
    }
    let config =
        Builder::new().dimensions(Dimensions { rows: 212, cols: 104 }).lut(&lut).build().unwrap();
    let frames = init_frames(&config);
    let last = frames.last().unwrap();
    assert_eq!(last.opcode, 0x32);
    assert_eq!(last.data, lut.to_vec());
    assert_eq!(last.data.len(), 70);
    assert_eq!(frames.iter().filter(|f| f.opcode == 0x32).count(), 1);
}

#[test]
fn upload_sequence() {
    let black = [1u8, 2, 3];
    let accent = [4u8, 5, 6];
    assert_eq!(
        upload_frames(&black, &accent),
        vec![
            frame(0x4E, &[0]),
            frame(0x4F, &[0, 0]),
            frame(0x24, &black),
            frame(0x4E, &[0]),
            frame(0x4F, &[0, 0]),
            frame(0x26, &accent),
        ]
    );
}

#[test]
fn refresh_and_sleep_sequences() {
    assert_eq!(refresh_frames(), vec![frame(0x22, &[0xC7]), frame(0x20, &[])]);
    assert_eq!(sleep_frames(), vec![frame(0x10, &[0x01])]);
}

#[test]
fn construct_then_bring_up() {
    let screen = Screen::new();
    let mut driver = PanelDriver::new(*screen.config());
    assert_eq!(driver.state(), DriverState::Cold);
    assert_eq!(driver.plane_len(), 2756);
    let mut resets = 0;
    let mut sent: Vec<Frame> = Vec::new();
    for event in [Event::Start, Event::Completed, Event::Completed] {
        match driver.step(event) {
            Action::PulseReset => {
                assert!(sent.is_empty());
                resets += 1;
            }
            Action::Send(frames) => sent.extend(frames),
            Action::Nothing => {}
            other => panic!("unexpected action {:?}", other),
        }
    }
    assert_eq!(resets, 1);
    assert_eq!(sent, init_expected());
    assert_eq!(sent.last().unwrap().data, LUT_FAST_YELLOW.to_vec());
    assert_eq!(driver.state(), DriverState::Ready);
}

#[test]
fn states_follow_one_another() {
    let mut driver = PanelDriver::new(panel_config());
    assert_eq!(driver.step(Event::Start), Action::PulseReset);
    assert_eq!(driver.state(), DriverState::Reset);
    assert_eq!(driver.step(Event::Completed), Action::Send(init_expected()));
    assert_eq!(driver.state(), DriverState::Configured);
    assert_eq!(driver.step(Event::Completed), Action::Nothing);
    assert_eq!(driver.state(), DriverState::Ready);
    let black = vec![0xFFu8; 2756];
    let accent = vec![0x00u8; 2756];
    let commit = Event::Commit { black: &black, accent: &accent };
    assert_eq!(driver.step(commit), Action::Send(upload_frames(&black, &accent)));
    assert_eq!(driver.state(), DriverState::Writing);
    assert_eq!(driver.step(Event::Completed), Action::Send(refresh_frames()));
    assert_eq!(driver.state(), DriverState::Refreshing);
    assert_eq!(driver.step(Event::Completed), Action::Nothing);
    assert_eq!(driver.state(), DriverState::Ready);
    assert_eq!(*driver.config(), panel_config());
}

#[test]
fn completed_with_nothing_under_way() {
    let mut driver = PanelDriver::new(panel_config());
    assert_eq!(driver.step(Event::Completed), Action::Nothing);
    assert_eq!(driver.state(), DriverState::Cold);
    let mut driver = ready_driver();
    assert_eq!(driver.step(Event::Completed), Action::Nothing);
    assert_eq!(driver.state(), DriverState::Ready);
}

#[test]
fn commit_shows_the_surface() {
    let mut screen = Screen::new();
    screen.surface_mut().clear(Color::White);
    screen.surface_mut().set_pixel(0, 0, Color::Black);
    let mut driver = ready_driver();
    let (black, accent) = screen.surface().planes();
    let action = driver.step(Event::Commit { black, accent });
    let frames = match action {
        Action::Send(frames) => frames,
        other => panic!("unexpected action {:?}", other),
    };
    assert_eq!(frames.len(), 6);
    assert_eq!(frames[2].opcode, 0x24);
    assert_eq!(frames[2].data.len(), 2756);
    assert_eq!(frames[2].data[12], 0xFE);
    assert_eq!(frames[2].data[0], 0xFF);
    assert_eq!(frames[5].opcode, 0x26);
    assert_eq!(frames[5].data, vec![0u8; 2756]);
}

#[test]
fn commit_is_refused_unless_ready() {
    let black = vec![0u8; 2756];
    let accent = vec![0u8; 2756];
    let commit = Event::Commit { black: &black, accent: &accent };
    let mut driver = PanelDriver::new(panel_config());
    assert_eq!(driver.step(commit), Action::Refuse);
    assert_eq!(driver.state(), DriverState::Cold);
    driver.step(Event::Start);
    assert_eq!(driver.step(commit), Action::Refuse);
    assert_eq!(driver.state(), DriverState::Reset);
    driver.step(Event::Completed);
    assert_eq!(driver.step(commit), Action::Refuse);
    assert_eq!(driver.state(), DriverState::Configured);
    driver.step(Event::Completed);
    assert!(matches!(driver.step(commit), Action::Send(_)));
    assert_eq!(driver.step(commit), Action::Refuse);
    assert_eq!(driver.state(), DriverState::Writing);
    driver.step(Event::Completed);
    assert_eq!(driver.step(commit), Action::Refuse);
    assert_eq!(driver.state(), DriverState::Refreshing);
}

#[test]
fn commit_is_refused_for_planes_of_another_size() {
    let right = vec![0u8; 2756];
    let short = vec![0u8; 2755];
    let long = vec![0u8; 2757];
    let mut driver = ready_driver();
    for (black, accent) in [(&short, &right), (&right, &long), (&short, &short), (&long, &long)] {
        assert_eq!(driver.step(Event::Commit { black, accent }), Action::Refuse);
        assert_eq!(driver.state(), DriverState::Ready);
    }
    let empty: Vec<u8> = Vec::new();
    assert_eq!(driver.step(Event::Commit { black: &empty, accent: &empty }), Action::Refuse);
}

#[test]
fn busy_timeout_while_refreshing() {
    let black = vec![0u8; 2756];
    let accent = vec![0u8; 2756];
    let commit = Event::Commit { black: &black, accent: &accent };
    let mut driver = ready_driver();
    driver.step(commit);
    driver.step(Event::Completed);
    assert_eq!(driver.state(), DriverState::Refreshing);
    assert_eq!(driver.step(Event::Failed(Fault::BusyTimeout)), Action::Report(Fault::BusyTimeout));
    assert_eq!(driver.state(), DriverState::Faulted);
    // Nothing is sent until the driver is started again.
    assert_eq!(driver.step(commit), Action::Refuse);
    assert_eq!(driver.step(Event::Completed), Action::Nothing);
    assert_eq!(driver.step(Event::Failed(Fault::BusyTimeout)), Action::Nothing);
    assert_eq!(driver.state(), DriverState::Faulted);
    assert_eq!(driver.step(Event::Start), Action::PulseReset);
    assert_eq!(driver.state(), DriverState::Reset);
    assert_eq!(driver.step(Event::Completed), Action::Send(init_expected()));
}

#[test]
fn failure_in_each_state() {
    for steps in 0..6 {
        let black = vec![0u8; 2756];
        let events = [
            Event::Start,
            Event::Completed,
            Event::Completed,
            Event::Commit { black: &black, accent: &black },
            Event::Completed,
        ];
        let mut driver = PanelDriver::new(panel_config());
        for event in events.iter().take(steps) {
            driver.step(*event);
        }
        let action = driver.step(Event::Failed(Fault::Transport));
        if steps == 0 {
            assert_eq!(action, Action::Nothing);
            assert_eq!(driver.state(), DriverState::Cold);
        } else {
            assert_eq!(action, Action::Report(Fault::Transport));
            assert_eq!(driver.state(), DriverState::Faulted);
        }
    }
}

#[test]
fn start_resets_from_any_state() {
    let black = vec![0u8; 2756];
    let events = [
        Event::Start,
        Event::Completed,
        Event::Completed,
        Event::Commit { black: &black, accent: &black },
        Event::Completed,
    ];
    for steps in 0..6 {
        let mut driver = PanelDriver::new(panel_config());
        for event in events.iter().take(steps) {
            driver.step(*event);
        }
        assert_eq!(driver.step(Event::Start), Action::PulseReset);
        assert_eq!(driver.state(), DriverState::Reset);
    }
}

#[test]
fn two_refreshes_send_the_same_frames() {
    let mut screen = Screen::new();
    screen.surface_mut().clear(Color::White);
    screen.surface_mut().set_pixel(20, 30, Color::Accent);
    let (black, accent) = screen.surface().planes();
    let mut driver = ready_driver();
    let mut runs: Vec<Vec<Action>> = Vec::new();
    for _ in 0..2 {
        let mut run = Vec::new();
        run.push(driver.step(Event::Commit { black, accent }));
        run.push(driver.step(Event::Completed));
        run.push(driver.step(Event::Completed));
        assert_eq!(driver.state(), DriverState::Ready);
        runs.push(run);
    }
    assert_eq!(runs[0], runs[1]);
    assert!(matches!(runs[0][0], Action::Send(_)));
    assert_eq!(runs[0][1], Action::Send(refresh_frames()));
}

#[test]
fn plane_len_of_other_panels() {
    for (rows, cols, len) in [(296, 160, 5920), (1, 8, 1), (212, 104, 2756), (3, 8, 3)] {
        let config = Builder::new()
            .dimensions(Dimensions { rows, cols })
            .lut(&LUT_FAST_YELLOW)
            .build()
            .unwrap();
        assert_eq!(PanelDriver::new(config).plane_len(), len);
    }
}
