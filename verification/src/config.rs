//! Panel configuration and its validation.
//!
//! A [`Builder`] collects the settings; [`Builder::build`] checks them and gives
//! a [`PanelConfig`], which from then on is known to be valid. The controller
//! driver's own configuration value is made from a valid [`PanelConfig`].

use vstd::prelude::*;
use crate::geometry::Rotation;
use crate::lut::{is_lut, LUT_LEN};

verus! {

/// The most rows (gate outputs) that the controller can drive.
pub const MAX_GATE_OUTPUTS: u16 = 296;

/// The most columns (source outputs) that the controller can drive.
pub const MAX_SOURCE_OUTPUTS: u8 = 160;

/// Size of a panel in its native orientation.
#[derive(Clone, Copy, PartialEq, Eq, Structural, Debug)]
pub struct Dimensions {
    pub rows: u16,
    pub cols: u8,
}

/// Why a set of settings is not a valid configuration.
#[derive(Clone, Copy, PartialEq, Eq, Structural, Debug)]
pub enum InvalidConfiguration {
    /// No dimensions were given.
    MissingDimensions,
    /// The panel would have no row or no column.
    EmptyGeometry,
    /// The number of columns is not a multiple of eight.
    ColumnsNotByteAligned,
    /// More rows than the controller has gate outputs.
    TooManyRows,
    /// More columns than the controller has source outputs.
    TooManyColumns,
    /// No lookup table was given.
    MissingLut,
    /// The lookup table is not 70 bytes long.
    LutLength,
}

/// The settings of a panel as plain values.
pub struct PanelSettings {
    pub rows: u16,
    pub cols: u8,
    pub rotation: Rotation,
    pub lut: Seq<u8>,
    pub yellow: bool,
}

impl PanelSettings {
    /// What makes settings a valid configuration.
    pub open spec fn valid(self) -> bool {
        &&& 1 <= self.rows <= MAX_GATE_OUTPUTS
        &&& 1 <= self.cols <= MAX_SOURCE_OUTPUTS
        &&& self.cols % 8 == 0
        &&& is_lut(self.lut)
    }
}

/// What a builder has been given so far, as plain values.
pub struct BuilderView {
    pub dimensions: Option<Dimensions>,
    pub rotation: Rotation,
    pub lut: Option<Seq<u8>>,
    pub yellow: bool,
}

impl BuilderView {
    /// The first fault of these settings, in the order in which they are
    /// checked, or `None` where they make a valid configuration.
    pub open spec fn fault(self) -> Option<InvalidConfiguration> {
        match self.dimensions {
            None => Some(InvalidConfiguration::MissingDimensions),
            Some(d) => if d.rows == 0 || d.cols == 0 {
                Some(InvalidConfiguration::EmptyGeometry)
            } else if d.cols % 8 != 0 {
                Some(InvalidConfiguration::ColumnsNotByteAligned)
            } else if d.rows > MAX_GATE_OUTPUTS {
                Some(InvalidConfiguration::TooManyRows)
            } else if d.cols > MAX_SOURCE_OUTPUTS {
                Some(InvalidConfiguration::TooManyColumns)
            } else {
                match self.lut {
                    None => Some(InvalidConfiguration::MissingLut),
                    Some(lut) => if !is_lut(lut) {
                        Some(InvalidConfiguration::LutLength)
                    } else {
                        None
                    },
                }
            },
        }
    }

    /// The settings that a fault-free builder stands for.
    pub open spec fn settings(self) -> PanelSettings {
        PanelSettings {
            rows: self.dimensions->0.rows,
            cols: self.dimensions->0.cols,
            rotation: self.rotation,
            lut: self.lut->0,
            yellow: self.yellow,
        }
    }
}

/// Collects the settings of a panel.
///
/// Dimensions and a lookup table must be given. The rotation defaults to
/// [`Rotation::Rotate0`], the accent pigment to red.
#[derive(Clone, Copy, Debug)]
pub struct Builder<'a> {
    dimensions: Option<Dimensions>,
    rotation: Rotation,
    lut: Option<&'a [u8]>,
    yellow: bool,
}

impl<'a> View for Builder<'a> {
    type V = BuilderView;

    closed spec fn view(&self) -> BuilderView {
        BuilderView {
            dimensions: self.dimensions,
            rotation: self.rotation,
            lut: match self.lut {
                Some(lut) => Some(lut@),
                None => None,
            },
            yellow: self.yellow,
        }
    }
}

impl<'a> Builder<'a> {
    /// A builder with nothing given yet.
    pub fn new() -> (builder: Self)
        ensures
            builder@ == (BuilderView {
                dimensions: None,
                rotation: Rotation::Rotate0,
                lut: None,
                yellow: false,
            }),
    {
        Builder { dimensions: None, rotation: Rotation::Rotate0, lut: None, yellow: false }
    }

    /// Sets the panel's native dimensions. They are checked by [`Builder::build`].
    pub fn dimensions(self, dimensions: Dimensions) -> (builder: Self)
        ensures
            builder@ == (BuilderView { dimensions: Some(dimensions), ..self@ }),
    {
        Builder { dimensions: Some(dimensions), ..self }
    }

    /// Sets the rotation of the drawing surface.
    pub fn rotation(self, rotation: Rotation) -> (builder: Self)
        ensures
            builder@ == (BuilderView { rotation, ..self@ }),
    {
        Builder { rotation, ..self }
    }

    /// Sets the lookup table. Its length is checked by [`Builder::build`].
    pub fn lut(self, lut: &'a [u8]) -> (builder: Self)
        ensures
            builder@ == (BuilderView { lut: Some(lut@), ..self@ }),
    {
        Builder { lut: Some(lut), ..self }
    }

    /// Says whether the accent pigment of this panel is yellow rather than red.
    /// The controller is driven the same way for both.
    pub fn yellow(self, yellow: bool) -> (builder: Self)
        ensures
            builder@ == (BuilderView { yellow, ..self@ }),
    {
        Builder { yellow, ..self }
    }

    /// Checks the settings and gives the configuration that they make, or the
    /// first fault found.
    pub fn build(self) -> (built: Result<PanelConfig<'a>, InvalidConfiguration>)
        ensures
            match built {
                Ok(config) => self@.fault() is None && config@ == self@.settings()
                    && config@.valid(),
                Err(fault) => self@.fault() == Some(fault),
            },
    {
        let dimensions = match self.dimensions {
            Some(dimensions) => dimensions,
            None => {
                return Err(InvalidConfiguration::MissingDimensions);
            },
        };
        if dimensions.rows == 0 || dimensions.cols == 0 {
            return Err(InvalidConfiguration::EmptyGeometry);
        }
        if dimensions.cols % 8 != 0 {
            return Err(InvalidConfiguration::ColumnsNotByteAligned);
        }
        if dimensions.rows > MAX_GATE_OUTPUTS {
            return Err(InvalidConfiguration::TooManyRows);
        }
        if dimensions.cols > MAX_SOURCE_OUTPUTS {
            return Err(InvalidConfiguration::TooManyColumns);
        }
        let lut = match self.lut {
            Some(lut) => lut,
            None => {
                return Err(InvalidConfiguration::MissingLut);
            },
        };
        if lut.len() != LUT_LEN {
            return Err(InvalidConfiguration::LutLength);
        }
        Ok(
            PanelConfig {
                rows: dimensions.rows,
                cols: dimensions.cols,
                rotation: self.rotation,
                lut,
                yellow: self.yellow,
            },
        )
    }
}

/// A validated panel configuration.
#[derive(Clone, Copy, PartialEq, Eq, Debug)]
pub struct PanelConfig<'a> {
    rows: u16,
    cols: u8,
    rotation: Rotation,
    lut: &'a [u8],
    yellow: bool,
}

impl<'a> View for PanelConfig<'a> {
    type V = PanelSettings;

    closed spec fn view(&self) -> PanelSettings {
        PanelSettings {
            rows: self.rows,
            cols: self.cols,
            rotation: self.rotation,
            lut: self.lut@,
            yellow: self.yellow,
        }
    }
}

/// `ssd1675::config::Config`, the controller driver's configuration. Its
/// fields cannot be read from outside the driver, so nothing is said of them.
#[verifier::external_type_specification]
#[verifier::external_body]
pub struct ExControllerConfig<'a>(ssd1675::config::Config<'a>);

/// `ssd1675::config::BuilderError`, the error of the controller driver's
/// builder. It holds nothing.
#[verifier::external_type_specification]
#[verifier::external_body]
pub struct ExBuilderError(ssd1675::config::BuilderError);

/// The configuration that `ssd1675::Builder` builds from these dimensions,
/// this rotation and this lookup table, every other setting left at the
/// builder's default.
pub uninterp spec fn controller_config_for(
    rows: u16,
    cols: u8,
    rotation: Rotation,
    lut: Seq<u8>,
) -> ssd1675::config::Config<'static>;

/// Runs `ssd1675::Builder`: `new`, `dimensions`, `rotation`, `lut` and `build`.
///
/// `dimensions` panics unless the columns are a multiple of eight and rows and
/// columns are within the controller's limits, and `lut` asks for exactly 70
/// bytes, so those inputs are required. `build` fails only where no dimensions
/// were set, which this chain always does, so the result is claimed to be `Ok`.
/// The builder only stores what it is given, so the configuration depends on
/// the four arguments alone: it is named [`controller_config_for`] of them.
/// Nothing else is claimed of what the configuration holds.
#[verifier::external_body]
fn build_controller_config<'a>(rows: u16, cols: u8, rotation: Rotation, lut: &'a [u8]) -> (built:
    Result<ssd1675::config::Config<'a>, ssd1675::config::BuilderError>)
    requires
        cols % 8 == 0,
        rows <= MAX_GATE_OUTPUTS,
        cols <= MAX_SOURCE_OUTPUTS,
        lut@.len() == LUT_LEN,
    ensures
        built is Ok,
        built->Ok_0 == controller_config_for(rows, cols, rotation, lut@),
{
    let rotation = match rotation {
        Rotation::Rotate0 => ssd1675::Rotation::Rotate0,
        Rotation::Rotate90 => ssd1675::Rotation::Rotate90,
        Rotation::Rotate180 => ssd1675::Rotation::Rotate180,
        Rotation::Rotate270 => ssd1675::Rotation::Rotate270,
    };
    ssd1675::Builder::new()
        .dimensions(ssd1675::Dimensions { rows, cols })
        .rotation(rotation)
        .lut(lut)
        .build()
}

impl<'a> PanelConfig<'a> {
    #[verifier::type_invariant]
    spec fn settings_valid(self) -> bool {
        self@.valid()
    }

    /// Number of rows of the panel.
    pub fn rows(&self) -> (rows: u16)
        ensures
            rows == self@.rows,
            1 <= rows <= MAX_GATE_OUTPUTS,
    {
        proof {
            use_type_invariant(self);
        }
        self.rows
    }

    /// Number of columns of the panel.
    pub fn cols(&self) -> (cols: u8)
        ensures
            cols == self@.cols,
            8 <= cols <= MAX_SOURCE_OUTPUTS,
            cols % 8 == 0,
    {
        proof {
            use_type_invariant(self);
        }
        self.cols
    }

    /// Rotation of the drawing surface.
    pub fn rotation(&self) -> (rotation: Rotation)
        ensures
            rotation == self@.rotation,
    {
        self.rotation
    }

    /// The lookup table, byte for byte as it was given to the builder.
    pub fn lut(&self) -> (lut: &'a [u8])
        ensures
            lut@ == self@.lut,
            is_lut(lut@),
    {
        proof {
            use_type_invariant(self);
        }
        self.lut
    }

    /// Whether the accent pigment is yellow rather than red.
    pub fn is_yellow(&self) -> (yellow: bool)
        ensures
            yellow == self@.yellow,
    {
        self.yellow
    }

    /// The controller driver's own configuration for these settings: what its
    /// builder gives for exactly these rows, columns, rotation and lookup
    /// table.
    ///
    /// The driver keeps its defaults for dummy line period, gate line width,
    /// VCOM register and data entry mode.
    pub fn controller_config(&self) -> (config: ssd1675::config::Config<'a>)
        ensures
            config == controller_config_for(
                self@.rows,
                self@.cols,
                self@.rotation,
                self@.lut,
            ),
    {
        proof {
            use_type_invariant(self);
        }
        build_controller_config(self.rows, self.cols, self.rotation, self.lut).unwrap()
    }
}

/// A configuration keeps the lookup table byte for byte: its length is 70 and
/// the first byte of each of the five waveform groups is the one given.
pub proof fn lemma_lut_preserved(builder: BuilderView, group: int)
    requires
        builder.fault() is None,
        0 <= group < 5,
    ensures
        builder.settings().lut == builder.lut->0,
        builder.settings().lut.len() == 70,
        crate::lut::group_head(builder.settings().lut, group) == crate::lut::group_head(
            builder.lut->0,
            group,
        ),
{
}

} // verus!
