use vstd::prelude::*;
use crate::constants::Constants;
use crate::manifest::StaticOptionsDescriptor;

verus! {

/// How the view is fitted into the window, as numbers.
pub struct ScalingMode {}

/// What `to_lowercase` gives for a text.
pub uninterp spec fn lower_of(s: Seq<char>) -> Seq<char>;

/// Relies on `str::to_lowercase`: the result depends on the characters alone,
/// and the empty text stays empty.
#[verifier::external_body]
fn lowercase(s: &str) -> (r: String)
    ensures
        r@ == lower_of(s@),
        s@.len() == 0 ==> r@.len() == 0,
{
    s.to_lowercase()
}

impl ScalingMode {
    pub const DISABLED: i32 = 0;
    pub const SCALE: i32 = 1;
    pub const ZOOM: i32 = 2;
    pub const CENTER: i32 = 3;
    pub const RESIZE: i32 = 4;

    /// The mode a lower-case mode name stands for; unknown names disable scaling.
    pub open spec fn spec_from_lowercase(s: Seq<char>) -> i32 {
        if s == "scale"@ {
            ScalingMode::SCALE
        } else if s == "zoom"@ {
            ScalingMode::ZOOM
        } else if s == "center"@ {
            ScalingMode::CENTER
        } else if s == "resize"@ {
            ScalingMode::RESIZE
        } else {
            ScalingMode::DISABLED
        }
    }

    /// The mode of a name that is already in lower case.
    pub fn from_lowercase(mode: &str) -> (r: i32)
        ensures
            r == ScalingMode::spec_from_lowercase(mode@),
    {
        let m = mode.to_owned();
        if m == "scale".to_owned() {
            ScalingMode::SCALE
        } else if m == "zoom".to_owned() {
            ScalingMode::ZOOM
        } else if m == "center".to_owned() {
            ScalingMode::CENTER
        } else if m == "resize".to_owned() {
            ScalingMode::RESIZE
        } else {
            ScalingMode::DISABLED
        }
    }

    /// The mode of a name, in any letter case.
    pub fn from_string(mode: &str) -> (r: i32)
        ensures
            r == ScalingMode::spec_from_lowercase(lower_of(mode@)),
    {
        let lower = lowercase(mode);
        ScalingMode::from_lowercase(lower.as_str())
    }
}

/// Application options.
#[derive(Clone, Debug)]
pub struct Options {
    pub title: String,
    pub window_x: i32,
    pub window_y: i32,
    pub window_width: u32,
    pub window_height: u32,
    pub view_width: u32,
    pub view_height: u32,
    pub scaling_mode: i32,
    pub fps: u32,
    pub show_statistics: bool,
    pub queue_size: usize,
    pub headless: bool,
    pub enable_validation_layer: bool,
    pub enable_api_dump_layer: bool,
}

impl Default for Options {
    fn default() -> (r: Options)
        ensures
            r.title@ == "gamekit"@,
            r.window_x == i32::MAX,
            r.window_y == i32::MAX,
            r.window_width == 400,
            r.window_height == 300,
            r.view_width == 0,
            r.view_height == 0,
            r.scaling_mode == ScalingMode::DISABLED,
            r.fps == Constants::DEFAULT_FPS,
            !r.show_statistics,
            r.queue_size == Constants::DEFAULT_BLITTER_BATCH_CAPACITY,
            !r.headless,
            r.enable_validation_layer == Constants::ENABLE_VALIDATION_LAYER,
            r.enable_api_dump_layer == Constants::ENABLE_API_DUMP_LAYER,
    {
        Options {
            title: "gamekit".to_owned(),
            window_x: i32::MAX,
            window_y: i32::MAX,
            window_width: 400,
            window_height: 300,
            view_width: 0,
            view_height: 0,
            scaling_mode: ScalingMode::DISABLED,
            fps: Constants::DEFAULT_FPS,
            show_statistics: false,
            queue_size: Constants::DEFAULT_BLITTER_BATCH_CAPACITY,
            headless: false,
            enable_validation_layer: Constants::ENABLE_VALIDATION_LAYER,
            enable_api_dump_layer: Constants::ENABLE_API_DUMP_LAYER,
        }
    }
}

impl Options {
    /// Options from a compiled descriptor; a zero queue size takes the default.
    pub fn from_static(descriptor: &StaticOptionsDescriptor) -> (r: Options)
        ensures
            r.title@ == descriptor.title@,
            r.window_x == descriptor.window_x,
            r.window_y == descriptor.window_y,
            r.window_width == descriptor.window_width,
            r.window_height == descriptor.window_height,
            r.view_width == descriptor.view_width,
            r.view_height == descriptor.view_height,
            r.scaling_mode == descriptor.scaling_mode,
            r.fps == descriptor.fps,
            r.show_statistics == descriptor.show_statistics,
            r.queue_size == if descriptor.queue_size > 0 { descriptor.queue_size } else { Constants::DEFAULT_BLITTER_BATCH_CAPACITY },
            r.headless == descriptor.headless,
            r.enable_validation_layer == descriptor.enable_validation_layer,
            r.enable_api_dump_layer == descriptor.enable_api_dump_layer,
    {
        Options {
            title: descriptor.title.to_owned(),
            window_x: descriptor.window_x,
            window_y: descriptor.window_y,
            window_width: descriptor.window_width,
            window_height: descriptor.window_height,
            view_width: descriptor.view_width,
            view_height: descriptor.view_height,
            scaling_mode: descriptor.scaling_mode,
            fps: descriptor.fps,
            show_statistics: descriptor.show_statistics,
            queue_size: if descriptor.queue_size > 0 { descriptor.queue_size } else { Constants::DEFAULT_BLITTER_BATCH_CAPACITY },
            headless: descriptor.headless,
            enable_validation_layer: descriptor.enable_validation_layer,
            enable_api_dump_layer: descriptor.enable_api_dump_layer,
        }
    }

    /// Every option but `title` is equal.
    pub open spec fn same_but_title(self, other: Options) -> bool {
        self.window_x == other.window_x
        && self.window_y == other.window_y
        && self.window_width == other.window_width
        && self.window_height == other.window_height
        && self.view_width == other.view_width
        && self.view_height == other.view_height
        && self.scaling_mode == other.scaling_mode
        && self.fps == other.fps
        && self.show_statistics == other.show_statistics
        && self.queue_size == other.queue_size
        && self.headless == other.headless
        && self.enable_validation_layer == other.enable_validation_layer
        && self.enable_api_dump_layer == other.enable_api_dump_layer
    }

    pub fn set_title(&mut self, title: &str) -> (r: &mut Self)
        ensures
            r.title@ == title@,
            r.same_but_title(*old(self)),
            *final(self) == *final(r),
    {
        self.title = title.to_owned();
        self
    }

    pub fn set_window_size(&mut self, width: u32, height: u32) -> (r: &mut Self)
        ensures
            *r == (Options { window_width: width, window_height: height, ..*old(self) }),
            *final(self) == *final(r),
    {
        self.window_width = width;
        self.window_height = height;
        self
    }

    pub fn set_scaling_mode(&mut self, scaling_mode: i32) -> (r: &mut Self)
        ensures
            *r == (Options { scaling_mode: scaling_mode, ..*old(self) }),
            *final(self) == *final(r),
    {
        self.scaling_mode = scaling_mode;
        self
    }

    pub fn set_show_statistics(&mut self, show_statistics: bool) -> (r: &mut Self)
        ensures
            *r == (Options { show_statistics: show_statistics, ..*old(self) }),
            *final(self) == *final(r),
    {
        self.show_statistics = show_statistics;
        self
    }

    pub fn set_window_position(&mut self, x: i32, y: i32) -> (r: &mut Self)
        ensures
            *r == (Options { window_x: x, window_y: y, ..*old(self) }),
            *final(self) == *final(r),
    {
        self.window_x = x;
        self.window_y = y;
        self
    }

    pub fn set_view_size(&mut self, width: u32, height: u32) -> (r: &mut Self)
        ensures
            *r == (Options { view_width: width, view_height: height, ..*old(self) }),
            *final(self) == *final(r),
    {
        self.view_width = width;
        self.view_height = height;
        self
    }

    pub fn set_fps(&mut self, fps: u32) -> (r: &mut Self)
        ensures
            *r == (Options { fps: fps, ..*old(self) }),
            *final(self) == *final(r),
    {
        self.fps = fps;
        self
    }

    pub fn set_headless(&mut self, headless: bool) -> (r: &mut Self)
        ensures
            *r == (Options { headless: headless, ..*old(self) }),
            *final(self) == *final(r),
    {
        self.headless = headless;
        self
    }
}

} // verus!
