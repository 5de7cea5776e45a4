//! Settings of an offline still image, and their command-line form.
//!
//! A still image is asked for with the word `--screenshot`. Each setting
//! is a flag followed by its value; a flag counts where it first occurs,
//! and a flag that is the last word has no value and is ignored.

use crate::scalar::{Scalar, SCALE};
use crate::simulation::Preset;
use crate::text::{parse_scalar, parse_u32, read_scalar, read_u32};
use vstd::prelude::*;

verus! {

/// Everything that determines an offline still image.
#[derive(Clone, Debug, PartialEq, Eq)]
pub struct ScreenshotConfig {
    pub preset: Preset,
    pub width: u32,
    pub height: u32,
    pub camera_distance: Scalar,
    pub camera_azimuth: Scalar,
    pub camera_elevation: Scalar,
    pub camera_fov: Scalar,
    pub max_steps: u32,
    pub step_size: Scalar,
    /// Zero for the checkerboard, one for the star field.
    pub background_mode: u32,
    /// Where the image is written.
    pub output: String,
    /// Simulated time at which the image is taken.
    pub sim_time: Scalar,
}

/// The mathematical content of a [`ScreenshotConfig`].
pub struct ConfigModel {
    pub preset: Preset,
    pub width: int,
    pub height: int,
    pub camera_distance: int,
    pub camera_azimuth: int,
    pub camera_elevation: int,
    pub camera_fov: int,
    pub max_steps: int,
    pub step_size: int,
    pub background_mode: int,
    pub output: Seq<char>,
    pub sim_time: int,
}

impl View for ScreenshotConfig {
    type V = ConfigModel;

    open spec fn view(&self) -> ConfigModel {
        ConfigModel {
            preset: self.preset,
            width: self.width as int,
            height: self.height as int,
            camera_distance: self.camera_distance@,
            camera_azimuth: self.camera_azimuth@,
            camera_elevation: self.camera_elevation@,
            camera_fov: self.camera_fov@,
            max_steps: self.max_steps as int,
            step_size: self.step_size@,
            background_mode: self.background_mode as int,
            output: self.output@,
            sim_time: self.sim_time@,
        }
    }
}

/// The settings used where no flag says otherwise: the single-body preset
/// at 1920 by 1080, seen from distance 10 at azimuth 0.5 and elevation 1.2
/// with field of view 1, 600 steps of 0.1, star field, written to
/// `screenshot.png` at time zero.
pub open spec fn default_config() -> ConfigModel {
    ConfigModel {
        preset: Preset::Single,
        width: 1920,
        height: 1080,
        camera_distance: 10 * SCALE,
        camera_azimuth: SCALE / 2,
        camera_elevation: 1_200_000_000,
        camera_fov: SCALE as int,
        max_steps: 600,
        step_size: SCALE / 10,
        background_mode: 1,
        output: "screenshot.png"@,
        sim_time: 0,
    }
}

impl Default for ScreenshotConfig {
    fn default() -> (c: ScreenshotConfig)
        ensures
            c@ == default_config(),
    {
        ScreenshotConfig {
            preset: Preset::Single,
            width: 1920,
            height: 1080,
            camera_distance: Scalar::from_int(10),
            camera_azimuth: Scalar::from_milli(500),
            camera_elevation: Scalar::from_milli(1200),
            camera_fov: Scalar::one(),
            max_steps: 600,
            step_size: Scalar::from_milli(100),
            background_mode: 1,
            output: "screenshot.png".to_owned(),
            sim_time: Scalar::zero(),
        }
    }
}

/// A setting that can be given on the command line.
#[derive(Clone, Copy, Debug, PartialEq, Eq, Structural)]
pub enum Flag {
    Preset,
    Width,
    Height,
    CameraDistance,
    CameraAzimuth,
    CameraElevation,
    CameraFov,
    MaxSteps,
    StepSize,
    Background,
    Output,
    SimTime,
}

/// Why a command line was turned down.
#[derive(Clone, Debug, PartialEq, Eq)]
pub enum ArgError {
    /// The value of `--preset` names no preset; it is carried along.
    UnknownPreset(String),
    /// The value of this flag is no number of the kind the flag takes.
    InvalidValue(Flag),
}

/// The mathematical content of an [`ArgError`].
pub enum ArgErrorModel {
    UnknownPreset(Seq<char>),
    InvalidValue(Flag),
}

impl View for ArgError {
    type V = ArgErrorModel;

    open spec fn view(&self) -> ArgErrorModel {
        match self {
            ArgError::UnknownPreset(word) => ArgErrorModel::UnknownPreset(word@),
            ArgError::InvalidValue(flag) => ArgErrorModel::InvalidValue(*flag),
        }
    }
}

/// The word that introduces a still image.
pub open spec fn screenshot_word() -> Seq<char> {
    "--screenshot"@
}

/// The word that introduces a setting.
pub open spec fn flag_text(flag: Flag) -> Seq<char> {
    match flag {
        Flag::Preset => "--preset"@,
        Flag::Width => "--width"@,
        Flag::Height => "--height"@,
        Flag::CameraDistance => "--camera-distance"@,
        Flag::CameraAzimuth => "--camera-azimuth"@,
        Flag::CameraElevation => "--camera-elevation"@,
        Flag::CameraFov => "--camera-fov"@,
        Flag::MaxSteps => "--max-steps"@,
        Flag::StepSize => "--step-size"@,
        Flag::Background => "--background"@,
        Flag::Output => "--output"@,
        Flag::SimTime => "--sim-time"@,
    }
}

/// The words of a command line.
pub open spec fn words(args: Seq<String>) -> Seq<Seq<char>> {
    Seq::new(args.len(), |i: int| args[i]@)
}

/// The first index at or after `from` where `word` stands.
pub open spec fn position_of(args: Seq<Seq<char>>, word: Seq<char>, from: int) -> Option<int>
    decreases args.len() - from,
{
    if from >= args.len() {
        None
    } else if args[from] == word {
        Some(from)
    } else {
        position_of(args, word, from + 1)
    }
}

/// The value of a flag: the word after its first occurrence.
pub open spec fn value_of(args: Seq<Seq<char>>, flag: Flag) -> Option<Seq<char>> {
    match position_of(args, flag_text(flag), 0) {
        Some(i) => if i + 1 < args.len() {
            Some(args[i + 1])
        } else {
            None
        },
        None => None,
    }
}

/// The preset that a word names.
pub open spec fn preset_of(word: Seq<char>) -> Option<Preset> {
    if word == "single"@ {
        Some(Preset::Single)
    } else if word == "binary"@ {
        Some(Preset::Binary)
    } else if word == "triple"@ {
        Some(Preset::Triple)
    } else {
        None
    }
}

/// The background mode that a word names: `checker` is zero, `stars` is
/// one, and a number is itself.
pub open spec fn background_of(word: Seq<char>) -> Option<int> {
    if word == "checker"@ {
        Some(0)
    } else if word == "stars"@ {
        Some(1)
    } else {
        parse_u32(word)
    }
}

/// Whether the value given for `flag`, if any, can be read.
pub open spec fn readable(args: Seq<Seq<char>>, flag: Flag) -> bool {
    match value_of(args, flag) {
        None => true,
        Some(word) => match flag {
            Flag::Preset => preset_of(word) is Some,
            Flag::Width | Flag::Height | Flag::MaxSteps => parse_u32(word) is Some,
            Flag::Background => background_of(word) is Some,
            Flag::Output => true,
            _ => parse_scalar(word) is Some,
        },
    }
}

/// The first flag, in the order in which the settings are read, whose
/// value cannot be read.
pub open spec fn first_unreadable(args: Seq<Seq<char>>) -> Option<Flag> {
    if !readable(args, Flag::Preset) {
        Some(Flag::Preset)
    } else if !readable(args, Flag::Width) {
        Some(Flag::Width)
    } else if !readable(args, Flag::Height) {
        Some(Flag::Height)
    } else if !readable(args, Flag::CameraDistance) {
        Some(Flag::CameraDistance)
    } else if !readable(args, Flag::CameraAzimuth) {
        Some(Flag::CameraAzimuth)
    } else if !readable(args, Flag::CameraElevation) {
        Some(Flag::CameraElevation)
    } else if !readable(args, Flag::CameraFov) {
        Some(Flag::CameraFov)
    } else if !readable(args, Flag::MaxSteps) {
        Some(Flag::MaxSteps)
    } else if !readable(args, Flag::StepSize) {
        Some(Flag::StepSize)
    } else if !readable(args, Flag::Background) {
        Some(Flag::Background)
    } else if !readable(args, Flag::SimTime) {
        Some(Flag::SimTime)
    } else {
        None
    }
}

/// A whole-number setting: the value of its flag, or `default`.
pub open spec fn count_setting(args: Seq<Seq<char>>, flag: Flag, default: int) -> int {
    match value_of(args, flag) {
        Some(word) => parse_u32(word).unwrap(),
        None => default,
    }
}

/// A decimal setting: the value of its flag, or `default`.
pub open spec fn decimal_setting(args: Seq<Seq<char>>, flag: Flag, default: int) -> int {
    match value_of(args, flag) {
        Some(word) => parse_scalar(word).unwrap(),
        None => default,
    }
}

/// The settings that a command line gives, every value of which can be
/// read: the defaults, each replaced by the value of its flag where the
/// flag is given.
pub open spec fn config_of(args: Seq<Seq<char>>) -> ConfigModel {
    let d = default_config();
    ConfigModel {
        preset: match value_of(args, Flag::Preset) {
            Some(word) => preset_of(word).unwrap(),
            None => d.preset,
        },
        width: count_setting(args, Flag::Width, d.width),
        height: count_setting(args, Flag::Height, d.height),
        camera_distance: decimal_setting(args, Flag::CameraDistance, d.camera_distance),
        camera_azimuth: decimal_setting(args, Flag::CameraAzimuth, d.camera_azimuth),
        camera_elevation: decimal_setting(args, Flag::CameraElevation, d.camera_elevation),
        camera_fov: decimal_setting(args, Flag::CameraFov, d.camera_fov),
        max_steps: count_setting(args, Flag::MaxSteps, d.max_steps),
        step_size: decimal_setting(args, Flag::StepSize, d.step_size),
        background_mode: match value_of(args, Flag::Background) {
            Some(word) => background_of(word).unwrap(),
            None => d.background_mode,
        },
        output: match value_of(args, Flag::Output) {
            Some(word) => word,
            None => d.output,
        },
        sim_time: decimal_setting(args, Flag::SimTime, d.sim_time),
    }
}

/// What a command line asks for. Without the word `--screenshot`: no still
/// image. With it: the settings, or the first value that cannot be read.
pub open spec fn spec_parse_args(args: Seq<Seq<char>>) -> Result<
    Option<ConfigModel>,
    ArgErrorModel,
> {
    if position_of(args, screenshot_word(), 0) is None {
        Ok(None)
    } else {
        match first_unreadable(args) {
            Some(Flag::Preset) => Err(
                ArgErrorModel::UnknownPreset(value_of(args, Flag::Preset).unwrap()),
            ),
            Some(flag) => Err(ArgErrorModel::InvalidValue(flag)),
            None => Ok(Some(config_of(args))),
        }
    }
}

/// The mathematical content of the result of [`parse_args`].
pub open spec fn outcome(r: Result<Option<ScreenshotConfig>, ArgError>) -> Result<
    Option<ConfigModel>,
    ArgErrorModel,
> {
    match r {
        Ok(Some(config)) => Ok(Some(config@)),
        Ok(None) => Ok(None),
        Err(e) => Err(e@),
    }
}

impl Flag {
    /// The word that introduces the setting.
    pub fn text(self) -> (r: &'static str)
        ensures
            r@ == flag_text(self),
    {
        match self {
            Flag::Preset => "--preset",
            Flag::Width => "--width",
            Flag::Height => "--height",
            Flag::CameraDistance => "--camera-distance",
            Flag::CameraAzimuth => "--camera-azimuth",
            Flag::CameraElevation => "--camera-elevation",
            Flag::CameraFov => "--camera-fov",
            Flag::MaxSteps => "--max-steps",
            Flag::StepSize => "--step-size",
            Flag::Background => "--background",
            Flag::Output => "--output",
            Flag::SimTime => "--sim-time",
        }
    }
}

fn same_text(a: &str, b: &str) -> (r: bool)
    ensures
        r == (a@ == b@),
{
    a.to_owned() == b.to_owned()
}

fn find_word(args: &Vec<String>, word: &str) -> (r: Option<usize>)
    ensures
        match r {
            Some(i) => position_of(words(args@), word@, 0) == Some(i as int) && i < args.len(),
            None => position_of(words(args@), word@, 0) is None,
        },
{
    let mut i: usize = 0;
    while i < args.len()
        invariant
            i <= args.len(),
            position_of(words(args@), word@, 0) == position_of(words(args@), word@, i as int),
        decreases args.len() - i,
    {
        if same_text(args[i].as_str(), word) {
            return Some(i);
        }
        i += 1;
    }
    None
}

fn get_val<'a>(args: &'a Vec<String>, flag: Flag) -> (r: Option<&'a str>)
    ensures
        match r {
            Some(word) => value_of(words(args@), flag) == Some(word@),
            None => value_of(words(args@), flag) is None,
        },
{
    match find_word(args, flag.text()) {
        Some(i) => {
            if i + 1 < args.len() {
                Some(args[i + 1].as_str())
            } else {
                None
            }
        },
        None => None,
    }
}

fn read_preset(word: &str) -> (r: Option<Preset>)
    ensures
        r == preset_of(word@),
{
    if same_text(word, "single") {
        Some(Preset::Single)
    } else if same_text(word, "binary") {
        Some(Preset::Binary)
    } else if same_text(word, "triple") {
        Some(Preset::Triple)
    } else {
        None
    }
}

fn read_background(word: &str) -> (r: Option<u32>)
    ensures
        r is Some <==> background_of(word@) is Some,
        r matches Some(v) ==> background_of(word@) == Some(v as int),
{
    if same_text(word, "checker") {
        Some(0)
    } else if same_text(word, "stars") {
        Some(1)
    } else {
        read_u32(word)
    }
}

fn count_flag(args: &Vec<String>, flag: Flag, default: u32) -> (r: Option<u32>)
    requires
        flag == Flag::Width || flag == Flag::Height || flag == Flag::MaxSteps,
    ensures
        r is Some <==> readable(words(args@), flag),
        r matches Some(v) ==> v as int == count_setting(words(args@), flag, default as int),
{
    match get_val(args, flag) {
        Some(word) => read_u32(word),
        None => Some(default),
    }
}

fn decimal_flag(args: &Vec<String>, flag: Flag, default: Scalar) -> (r: Option<Scalar>)
    requires
        flag == Flag::CameraDistance || flag == Flag::CameraAzimuth || flag
            == Flag::CameraElevation || flag == Flag::CameraFov || flag == Flag::StepSize || flag
            == Flag::SimTime,
    ensures
        r is Some <==> readable(words(args@), flag),
        r matches Some(v) ==> v@ == decimal_setting(words(args@), flag, default@),
{
    match get_val(args, flag) {
        Some(word) => read_scalar(word),
        None => Some(default),
    }
}

/// Reads the settings of a still image from the words of a command line.
///
/// Returns `Ok(None)` where the word `--screenshot` does not occur. Else
/// the settings are read in a fixed order, each from the word after the
/// first occurrence of its flag, and the first value that cannot be read
/// is the error.
pub fn parse_args(args: &Vec<String>) -> (r: Result<Option<ScreenshotConfig>, ArgError>)
    ensures
        outcome(r) == spec_parse_args(words(args@)),
{
    if find_word(args, "--screenshot").is_none() {
        return Ok(None);
    }
    let mut config = ScreenshotConfig::default();
    match get_val(args, Flag::Preset) {
        Some(word) => match read_preset(word) {
            Some(preset) => {
                config.preset = preset;
            },
            None => {
                return Err(ArgError::UnknownPreset(word.to_owned()));
            },
        },
        None => {},
    }
    match count_flag(args, Flag::Width, config.width) {
        Some(v) => {
            config.width = v;
        },
        None => {
            return Err(ArgError::InvalidValue(Flag::Width));
        },
    }
    match count_flag(args, Flag::Height, config.height) {
        Some(v) => {
            config.height = v;
        },
        None => {
            return Err(ArgError::InvalidValue(Flag::Height));
        },
    }
    match decimal_flag(args, Flag::CameraDistance, config.camera_distance) {
        Some(v) => {
            config.camera_distance = v;
        },
        None => {
            return Err(ArgError::InvalidValue(Flag::CameraDistance));
        },
    }
    match decimal_flag(args, Flag::CameraAzimuth, config.camera_azimuth) {
        Some(v) => {
            config.camera_azimuth = v;
        },
        None => {
            return Err(ArgError::InvalidValue(Flag::CameraAzimuth));
        },
    }
    match decimal_flag(args, Flag::CameraElevation, config.camera_elevation) {
        Some(v) => {
            config.camera_elevation = v;
        },
        None => {
            return Err(ArgError::InvalidValue(Flag::CameraElevation));
        },
    }
    match decimal_flag(args, Flag::CameraFov, config.camera_fov) {
        Some(v) => {
            config.camera_fov = v;
        },
        None => {
            return Err(ArgError::InvalidValue(Flag::CameraFov));
        },
    }
    match count_flag(args, Flag::MaxSteps, config.max_steps) {
        Some(v) => {
            config.max_steps = v;
        },
        None => {
            return Err(ArgError::InvalidValue(Flag::MaxSteps));
        },
    }
    match decimal_flag(args, Flag::StepSize, config.step_size) {
        Some(v) => {
            config.step_size = v;
        },
        None => {
            return Err(ArgError::InvalidValue(Flag::StepSize));
        },
    }
    match get_val(args, Flag::Background) {
        Some(word) => match read_background(word) {
            Some(mode) => {
                config.background_mode = mode;
            },
            None => {
                return Err(ArgError::InvalidValue(Flag::Background));
            },
        },
        None => {},
    }
    match get_val(args, Flag::Output) {
        Some(word) => {
            config.output = word.to_owned();
        },
        None => {},
    }
    match decimal_flag(args, Flag::SimTime, config.sim_time) {
        Some(v) => {
            config.sim_time = v;
        },
        None => {
            return Err(ArgError::InvalidValue(Flag::SimTime));
        },
    }
    Ok(Some(config))
}

} // verus!
