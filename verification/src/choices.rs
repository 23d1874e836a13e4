//! Choices that the user makes by name.

use vstd::prelude::*;

use crate::text;
use crate::text::{invalid_message, same_text};

verus! {

/// Whether lost packets are asked for again.
#[derive(Clone, Copy, Debug, PartialEq, Eq, Structural)]
pub enum RepairMode {
    Off,
    Nack,
}

impl RepairMode {
    pub open spec fn text(self) -> Seq<char> {
        match self {
            RepairMode::Off => "off"@,
            RepairMode::Nack => "nack"@,
        }
    }

    pub fn name(self) -> (r: &'static str)
        ensures
            r@ == self.text(),
    {
        match self {
            RepairMode::Off => "off",
            RepairMode::Nack => "nack",
        }
    }

    /// What `s` names.
    pub open spec fn named(s: Seq<char>) -> Result<RepairMode, Seq<char>> {
        if s == "off"@ {
            Ok(RepairMode::Off)
        } else if s == "nack"@ {
            Ok(RepairMode::Nack)
        } else {
            Err(text::invalid("repair"@, s))
        }
    }

    pub fn parse(text: &str) -> (r: Result<RepairMode, String>)
        ensures
            text::agrees(r, Self::named(text@)),
    {
        if same_text(text, "off") {
            Ok(RepairMode::Off)
        } else if same_text(text, "nack") {
            Ok(RepairMode::Nack)
        } else {
            Err(invalid_message("repair", text))
        }
    }
}

/// Whether pictures wait for their sound.
#[derive(Clone, Copy, Debug, PartialEq, Eq, Structural)]
pub enum AvSyncMode {
    Off,
    Conservative,
}

impl AvSyncMode {
    pub open spec fn text(self) -> Seq<char> {
        match self {
            AvSyncMode::Off => "off"@,
            AvSyncMode::Conservative => "conservative"@,
        }
    }

    pub fn name(self) -> (r: &'static str)
        ensures
            r@ == self.text(),
    {
        match self {
            AvSyncMode::Off => "off",
            AvSyncMode::Conservative => "conservative",
        }
    }

    /// What `s` names.
    pub open spec fn named(s: Seq<char>) -> Result<AvSyncMode, Seq<char>> {
        if s == "off"@ {
            Ok(AvSyncMode::Off)
        } else if s == "conservative"@ {
            Ok(AvSyncMode::Conservative)
        } else {
            Err(text::invalid("av-sync"@, s))
        }
    }

    pub fn parse(text: &str) -> (r: Result<AvSyncMode, String>)
        ensures
            text::agrees(r, Self::named(text@)),
    {
        if same_text(text, "off") {
            Ok(AvSyncMode::Off)
        } else if same_text(text, "conservative") {
            Ok(AvSyncMode::Conservative)
        } else {
            Err(invalid_message("av-sync", text))
        }
    }
}

/// How a picture is fitted into its window.
#[derive(Clone, Copy, Debug, PartialEq, Eq, Structural)]
pub enum RenderScaleMode {
    Exact,
    Fit,
    Stretch,
}

impl RenderScaleMode {
    pub open spec fn text(self) -> Seq<char> {
        match self {
            RenderScaleMode::Exact => "exact"@,
            RenderScaleMode::Fit => "fit"@,
            RenderScaleMode::Stretch => "stretch"@,
        }
    }

    pub fn name(self) -> (r: &'static str)
        ensures
            r@ == self.text(),
    {
        match self {
            RenderScaleMode::Exact => "exact",
            RenderScaleMode::Fit => "fit",
            RenderScaleMode::Stretch => "stretch",
        }
    }

    /// What `s` names.
    pub open spec fn named(s: Seq<char>) -> Result<RenderScaleMode, Seq<char>> {
        if s == "exact"@ {
            Ok(RenderScaleMode::Exact)
        } else if s == "fit"@ {
            Ok(RenderScaleMode::Fit)
        } else if s == "stretch"@ {
            Ok(RenderScaleMode::Stretch)
        } else {
            Err(text::invalid("render-scale"@, s))
        }
    }

    pub fn parse(text: &str) -> (r: Result<RenderScaleMode, String>)
        ensures
            text::agrees(r, Self::named(text@)),
    {
        if same_text(text, "exact") {
            Ok(RenderScaleMode::Exact)
        } else if same_text(text, "fit") {
            Ok(RenderScaleMode::Fit)
        } else if same_text(text, "stretch") {
            Ok(RenderScaleMode::Stretch)
        } else {
            Err(invalid_message("render-scale", text))
        }
    }
}

/// How the window is shown.
#[derive(Clone, Copy, Debug, PartialEq, Eq, Structural)]
pub enum WindowMode {
    Windowed,
    BorderlessFullscreen,
}

impl WindowMode {
    pub open spec fn text(self) -> Seq<char> {
        match self {
            WindowMode::Windowed => "windowed"@,
            WindowMode::BorderlessFullscreen => "borderless-fullscreen"@,
        }
    }

    pub fn name(self) -> (r: &'static str)
        ensures
            r@ == self.text(),
    {
        match self {
            WindowMode::Windowed => "windowed",
            WindowMode::BorderlessFullscreen => "borderless-fullscreen",
        }
    }

    /// What `s` names.
    pub open spec fn named(s: Seq<char>) -> Result<WindowMode, Seq<char>> {
        if s == "windowed"@ {
            Ok(WindowMode::Windowed)
        } else if s == "borderless-fullscreen"@ {
            Ok(WindowMode::BorderlessFullscreen)
        } else {
            Err(text::invalid("window-mode"@, s))
        }
    }

    pub fn parse(text: &str) -> (r: Result<WindowMode, String>)
        ensures
            text::agrees(r, Self::named(text@)),
    {
        if same_text(text, "windowed") {
            Ok(WindowMode::Windowed)
        } else if same_text(text, "borderless-fullscreen") {
            Ok(WindowMode::BorderlessFullscreen)
        } else {
            Err(invalid_message("window-mode", text))
        }
    }
}

/// What draws the pictures.
#[derive(Clone, Copy, Debug, PartialEq, Eq, Structural)]
pub enum RenderBackend {
    Gdi,
    D3d11,
}

impl RenderBackend {
    pub open spec fn text(self) -> Seq<char> {
        match self {
            RenderBackend::Gdi => "gdi"@,
            RenderBackend::D3d11 => "d3d11"@,
        }
    }

    pub fn name(self) -> (r: &'static str)
        ensures
            r@ == self.text(),
    {
        match self {
            RenderBackend::Gdi => "gdi",
            RenderBackend::D3d11 => "d3d11",
        }
    }

    /// What `s` names.
    pub open spec fn named(s: Seq<char>) -> Result<RenderBackend, Seq<char>> {
        if s == "gdi"@ {
            Ok(RenderBackend::Gdi)
        } else if s == "d3d11"@ {
            Ok(RenderBackend::D3d11)
        } else {
            Err(text::invalid("render-backend"@, s))
        }
    }

    pub fn parse(text: &str) -> (r: Result<RenderBackend, String>)
        ensures
            text::agrees(r, Self::named(text@)),
    {
        if same_text(text, "gdi") {
            Ok(RenderBackend::Gdi)
        } else if same_text(text, "d3d11") {
            Ok(RenderBackend::D3d11)
        } else {
            Err(invalid_message("render-backend", text))
        }
    }
}

/// Whether the refresh rate of the display is looked up.
#[derive(Clone, Copy, Debug, PartialEq, Eq, Structural)]
pub enum DisplayRefreshDetect {
    Auto,
    Off,
}

impl DisplayRefreshDetect {
    pub open spec fn text(self) -> Seq<char> {
        match self {
            DisplayRefreshDetect::Auto => "auto"@,
            DisplayRefreshDetect::Off => "off"@,
        }
    }

    pub fn name(self) -> (r: &'static str)
        ensures
            r@ == self.text(),
    {
        match self {
            DisplayRefreshDetect::Auto => "auto",
            DisplayRefreshDetect::Off => "off",
        }
    }

    /// What `s` names.
    pub open spec fn named(s: Seq<char>) -> Result<DisplayRefreshDetect, Seq<char>> {
        if s == "auto"@ {
            Ok(DisplayRefreshDetect::Auto)
        } else if s == "off"@ {
            Ok(DisplayRefreshDetect::Off)
        } else {
            Err(text::invalid("display-refresh-detect"@, s))
        }
    }

    pub fn parse(text: &str) -> (r: Result<DisplayRefreshDetect, String>)
        ensures
            text::agrees(r, Self::named(text@)),
    {
        if same_text(text, "auto") {
            Ok(DisplayRefreshDetect::Auto)
        } else if same_text(text, "off") {
            Ok(DisplayRefreshDetect::Off)
        } else {
            Err(invalid_message("display-refresh-detect", text))
        }
    }
}

/// Whether the sender adapts its profile.
#[derive(Clone, Copy, Debug, PartialEq, Eq, Structural)]
pub enum AdaptiveMode {
    Off,
    Smoothness,
}

impl AdaptiveMode {
    pub open spec fn text(self) -> Seq<char> {
        match self {
            AdaptiveMode::Off => "off"@,
            AdaptiveMode::Smoothness => "smoothness"@,
        }
    }

    pub fn name(self) -> (r: &'static str)
        ensures
            r@ == self.text(),
    {
        match self {
            AdaptiveMode::Off => "off",
            AdaptiveMode::Smoothness => "smoothness",
        }
    }

    /// What `s` names.
    pub open spec fn named(s: Seq<char>) -> Result<AdaptiveMode, Seq<char>> {
        if s == "off"@ {
            Ok(AdaptiveMode::Off)
        } else if s == "smoothness"@ {
            Ok(AdaptiveMode::Smoothness)
        } else {
            Err(text::invalid("adaptive-quality"@, s))
        }
    }

    pub fn parse(text: &str) -> (r: Result<AdaptiveMode, String>)
        ensures
            text::agrees(r, Self::named(text@)),
    {
        if same_text(text, "off") {
            Ok(AdaptiveMode::Off)
        } else if same_text(text, "smoothness") {
            Ok(AdaptiveMode::Smoothness)
        } else {
            Err(invalid_message("adaptive-quality", text))
        }
    }
}

/// The highest frame rate that the sender may choose.
#[derive(Clone, Copy, Debug, PartialEq, Eq, Structural)]
pub enum MaxFps {
    Auto,
    Fixed(u32),
}

impl MaxFps {
    /// The name of a limit.
    pub open spec fn text(self) -> Seq<char> {
        match self {
            MaxFps::Auto => "auto"@,
            MaxFps::Fixed(fps) => text::decimal(fps as nat),
        }
    }

    pub fn name(self) -> (r: String)
        ensures
            r@ == self.text(),
    {
        match self {
            MaxFps::Auto => "auto".to_string(),
            MaxFps::Fixed(fps) => text::decimal_text(fps as u64),
        }
    }

    /// What `s` names: `auto`, or one of four rates.
    pub open spec fn named(s: Seq<char>) -> Result<MaxFps, Seq<char>> {
        if s == "auto"@ {
            Ok(MaxFps::Auto)
        } else if s == "60"@ {
            Ok(MaxFps::Fixed(60))
        } else if s == "75"@ {
            Ok(MaxFps::Fixed(75))
        } else if s == "90"@ {
            Ok(MaxFps::Fixed(90))
        } else if s == "120"@ {
            Ok(MaxFps::Fixed(120))
        } else {
            Err(text::invalid("max-fps"@, s))
        }
    }

    pub fn parse(text: &str) -> (r: Result<MaxFps, String>)
        ensures
            text::agrees(r, Self::named(text@)),
    {
        if same_text(text, "auto") {
            Ok(MaxFps::Auto)
        } else if same_text(text, "60") {
            Ok(MaxFps::Fixed(60))
        } else if same_text(text, "75") {
            Ok(MaxFps::Fixed(75))
        } else if same_text(text, "90") {
            Ok(MaxFps::Fixed(90))
        } else if same_text(text, "120") {
            Ok(MaxFps::Fixed(120))
        } else {
            Err(invalid_message("max-fps", text))
        }
    }
}

// What holds of every choice.

/// What a name says is what it is read as, and other texts name nothing.
pub proof fn law_repairs_is_read_back(mode: RepairMode, other: Seq<char>)
    ensures
        RepairMode::named(mode.text()) == Ok::<RepairMode, Seq<char>>(mode),
        RepairMode::named("off"@) == Ok::<RepairMode, Seq<char>>(RepairMode::Off),
        RepairMode::named("nack"@) == Ok::<RepairMode, Seq<char>>(RepairMode::Nack),
        other != "off"@ && other != "nack"@ ==> RepairMode::named(other) == Err::<RepairMode, Seq<char>>(
            "invalid "@ + "repair"@ + ": "@ + other,
        ),
{
    reveal_strlit("off");
    reveal_strlit("nack");
    assert("off"@.len() == 3 && "nack"@.len() == 4);
}

/// What a name says is what it is read as, and other texts name nothing.
pub proof fn law_synchrony_is_read_back(mode: AvSyncMode, other: Seq<char>)
    ensures
        AvSyncMode::named(mode.text()) == Ok::<AvSyncMode, Seq<char>>(mode),
        AvSyncMode::named("off"@) == Ok::<AvSyncMode, Seq<char>>(AvSyncMode::Off),
        AvSyncMode::named("conservative"@) == Ok::<AvSyncMode, Seq<char>>(AvSyncMode::Conservative),
        other != "off"@ && other != "conservative"@ ==> AvSyncMode::named(other) == Err::<AvSyncMode, Seq<char>>(
            "invalid "@ + "av-sync"@ + ": "@ + other,
        ),
{
    reveal_strlit("off");
    reveal_strlit("conservative");
    assert("off"@.len() == 3 && "conservative"@.len() == 12);
}

/// What a name says is what it is read as, and other texts name nothing.
pub proof fn law_scale_is_read_back(mode: RenderScaleMode, other: Seq<char>)
    ensures
        RenderScaleMode::named(mode.text()) == Ok::<RenderScaleMode, Seq<char>>(mode),
        RenderScaleMode::named("exact"@) == Ok::<RenderScaleMode, Seq<char>>(RenderScaleMode::Exact),
        RenderScaleMode::named("fit"@) == Ok::<RenderScaleMode, Seq<char>>(RenderScaleMode::Fit),
        RenderScaleMode::named("stretch"@) == Ok::<RenderScaleMode, Seq<char>>(RenderScaleMode::Stretch),
        other != "exact"@ && other != "fit"@ && other != "stretch"@ ==> RenderScaleMode::named(other) == Err::<RenderScaleMode, Seq<char>>(
            "invalid "@ + "render-scale"@ + ": "@ + other,
        ),
{
    reveal_strlit("exact");
    reveal_strlit("fit");
    reveal_strlit("stretch");
    assert("exact"@.len() == 5 && "fit"@.len() == 3 && "stretch"@.len() == 7);
}

/// What a name says is what it is read as, and other texts name nothing.
pub proof fn law_window_is_read_back(mode: WindowMode, other: Seq<char>)
    ensures
        WindowMode::named(mode.text()) == Ok::<WindowMode, Seq<char>>(mode),
        WindowMode::named("windowed"@) == Ok::<WindowMode, Seq<char>>(WindowMode::Windowed),
        WindowMode::named("borderless-fullscreen"@) == Ok::<WindowMode, Seq<char>>(WindowMode::BorderlessFullscreen),
        other != "windowed"@ && other != "borderless-fullscreen"@ ==> WindowMode::named(other) == Err::<WindowMode, Seq<char>>(
            "invalid "@ + "window-mode"@ + ": "@ + other,
        ),
{
    reveal_strlit("windowed");
    reveal_strlit("borderless-fullscreen");
    assert("windowed"@.len() == 8 && "borderless-fullscreen"@.len() == 21);
}

/// What a name says is what it is read as, and other texts name nothing.
pub proof fn law_backend_is_read_back(mode: RenderBackend, other: Seq<char>)
    ensures
        RenderBackend::named(mode.text()) == Ok::<RenderBackend, Seq<char>>(mode),
        RenderBackend::named("gdi"@) == Ok::<RenderBackend, Seq<char>>(RenderBackend::Gdi),
        RenderBackend::named("d3d11"@) == Ok::<RenderBackend, Seq<char>>(RenderBackend::D3d11),
        other != "gdi"@ && other != "d3d11"@ ==> RenderBackend::named(other) == Err::<RenderBackend, Seq<char>>(
            "invalid "@ + "render-backend"@ + ": "@ + other,
        ),
{
    reveal_strlit("gdi");
    reveal_strlit("d3d11");
    assert("gdi"@.len() == 3 && "d3d11"@.len() == 5);
}

/// What a name says is what it is read as, and other texts name nothing.
pub proof fn law_detection_is_read_back(mode: DisplayRefreshDetect, other: Seq<char>)
    ensures
        DisplayRefreshDetect::named(mode.text()) == Ok::<DisplayRefreshDetect, Seq<char>>(mode),
        DisplayRefreshDetect::named("auto"@) == Ok::<DisplayRefreshDetect, Seq<char>>(DisplayRefreshDetect::Auto),
        DisplayRefreshDetect::named("off"@) == Ok::<DisplayRefreshDetect, Seq<char>>(DisplayRefreshDetect::Off),
        other != "auto"@ && other != "off"@ ==> DisplayRefreshDetect::named(other) == Err::<DisplayRefreshDetect, Seq<char>>(
            "invalid "@ + "display-refresh-detect"@ + ": "@ + other,
        ),
{
    reveal_strlit("auto");
    reveal_strlit("off");
    assert("auto"@.len() == 4 && "off"@.len() == 3);
}

/// What a name says is what it is read as, and other texts name nothing.
pub proof fn law_quality_is_read_back(mode: AdaptiveMode, other: Seq<char>)
    ensures
        AdaptiveMode::named(mode.text()) == Ok::<AdaptiveMode, Seq<char>>(mode),
        AdaptiveMode::named("off"@) == Ok::<AdaptiveMode, Seq<char>>(AdaptiveMode::Off),
        AdaptiveMode::named("smoothness"@) == Ok::<AdaptiveMode, Seq<char>>(AdaptiveMode::Smoothness),
        other != "off"@ && other != "smoothness"@ ==> AdaptiveMode::named(other) == Err::<AdaptiveMode, Seq<char>>(
            "invalid "@ + "adaptive-quality"@ + ": "@ + other,
        ),
{
    reveal_strlit("off");
    reveal_strlit("smoothness");
    assert("off"@.len() == 3 && "smoothness"@.len() == 10);
}

/// The limit of the frame rate is chosen automatically or is one of four rates, and each is
/// read as it is written.
pub proof fn law_limit_is_read_back(fps: u32, other: Seq<char>)
    ensures
        MaxFps::named(MaxFps::Auto.text()) == Ok::<MaxFps, Seq<char>>(MaxFps::Auto),
        fps == 60 || fps == 75 || fps == 90 || fps == 120 ==> MaxFps::named(
            MaxFps::Fixed(fps).text(),
        ) == Ok::<MaxFps, Seq<char>>(MaxFps::Fixed(fps)),
        MaxFps::named(text::decimal(fps as nat)) is Ok ==> fps == 60 || fps == 75 || fps == 90
            || fps == 120,
        other != "auto"@ && other != "60"@ && other != "75"@ && other != "90"@ && other != "120"@
            ==> MaxFps::named(other) == Err::<MaxFps, Seq<char>>(
            "invalid "@ + "max-fps"@ + ": "@ + other,
        ),
{
    reveal_strlit("auto");
    reveal_strlit("60");
    reveal_strlit("75");
    reveal_strlit("90");
    reveal_strlit("120");
    reveal_with_fuel(text::decimal, 4);
    assert(text::decimal(60) =~= "60"@);
    assert(text::decimal(75) =~= "75"@);
    assert(text::decimal(90) =~= "90"@);
    assert(text::decimal(120) =~= "120"@);
    assert("auto"@.len() == 4 && "60"@.len() == 2 && "75"@.len() == 2 && "90"@.len() == 2
        && "120"@.len() == 3);
    assert("60"@[0] == '6' && "75"@[0] == '7' && "90"@[0] == '9' && "auto"@[0] == 'a');
    text::law_number_of_decimal(fps as nat);
    text::law_number_of_decimal(60);
    text::law_number_of_decimal(75);
    text::law_number_of_decimal(90);
    text::law_number_of_decimal(120);
    assert(text::is_digit(text::decimal(fps as nat)[0]));
}

} // verus!
