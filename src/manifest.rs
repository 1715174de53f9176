use vstd::prelude::*;
use crate::constants::Constants;

verus! {

/// What `file_stem` of a path gives: the file name without its last
/// extension, where the path has a file name.
pub uninterp spec fn file_stem_of(path: Seq<char>) -> Option<Seq<char>>;

/// Relies on `std::path::Path::file_stem`: the stem depends on the path's
/// text alone, and is a part of that text, so it reads back as UTF-8.
#[verifier::external_body]
fn path_file_stem(path: &str) -> (r: Option<String>)
    ensures
        r.is_some() == file_stem_of(path@).is_some(),
        r.is_some() ==> r.unwrap()@ == file_stem_of(path@).unwrap(),
{
    std::path::Path::new(path).file_stem().and_then(|s| s.to_str()).map(|s| s.to_owned())
}

/// A resource's name: the given name, or else the stem of its path (empty
/// where the path has no file name).
pub open spec fn spec_name_from_path(name: Seq<char>, path: Seq<char>) -> Seq<char> {
    if name.len() > 0 {
        name
    } else {
        match file_stem_of(path) {
            Some(stem) => stem,
            None => Seq::<char>::empty(),
        }
    }
}

pub fn name_from_path(name: &str, path: &str) -> (r: String)
    ensures
        r@ == spec_name_from_path(name@, path@),
{
    if !name.is_empty() {
        name.to_owned()
    } else {
        match path_file_stem(path) {
            Some(stem) => stem,
            None => String::new(),
        }
    }
}

/// Default texture binding slot of a material.
pub fn default_1() -> (r: u32)
    ensures
        r == 1,
{
    1
}

pub fn default_true() -> (r: bool)
    ensures
        r,
{
    true
}

pub fn default_fps() -> (r: u32)
    ensures
        r == 60,
{
    60
}

/// Default window position: left to the window system.
pub fn default_imax() -> (r: i32)
    ensures
        r == i32::MAX,
{
    i32::MAX
}

pub fn default_width() -> (r: u32)
    ensures
        r == 400,
{
    400
}

pub fn default_height() -> (r: u32)
    ensures
        r == 300,
{
    300
}

pub fn default_title() -> (r: String)
    ensures
        r@ == "gamekit"@,
{
    "gamekit".to_owned()
}

pub fn default_validation_layer() -> (r: bool)
    ensures
        r == Constants::ENABLE_VALIDATION_LAYER,
{
    Constants::ENABLE_VALIDATION_LAYER
}

pub fn default_api_dump_layer() -> (r: bool)
    ensures
        r == Constants::ENABLE_API_DUMP_LAYER,
{
    Constants::ENABLE_API_DUMP_LAYER
}

/// Application options as a manifest states them.
pub struct OptionsDescriptor {
    pub title: String,
    pub window_x: i32,
    pub window_y: i32,
    pub window_width: u32,
    pub window_height: u32,
    pub view_width: u32,
    pub view_height: u32,
    pub scaling_mode: String,
    pub fps: u32,
    pub show_statistics: bool,
    pub queue_size: usize,
    pub headless: bool,
    pub enable_validation_layer: bool,
    pub enable_api_dump_layer: bool,
}

/// Application options as compiled into the program.
pub struct StaticOptionsDescriptor {
    pub title: &'static str,
    pub window_x: i32,
    pub window_y: i32,
    pub window_width: u32,
    pub window_height: u32,
    pub view_width: u32,
    pub view_height: u32,
    pub scaling_mode: i32,
    pub fps: u32,
    pub show_statistics: bool,
    pub queue_size: usize,
    pub headless: bool,
    pub enable_validation_layer: bool,
    pub enable_api_dump_layer: bool,
}

/// Material settings as a manifest states them.
pub struct MaterialDescriptor {
    pub name: String,
    pub font: String,
    pub texture: String,
    pub texture_binding: u32,
    pub texture_filtering: bool,
    pub vertex_shader: String,
    pub fragment_shader: String,
    pub blending: bool,
    pub blend_mode: String,
    pub backface_culling: bool,
    pub frontface_clockwise: bool,
    pub depth_testing: bool,
    pub depth_writing: bool,
}

/// A background task as a manifest states it.
pub struct TaskDescriptor {
    pub name: String,
    pub id: u32,
    pub interval: u64,
}

/// A background task as compiled into the program.
pub struct StaticTaskDescriptor {
    pub name: &'static str,
    pub id: u32,
    pub interval: u64,
}

impl StaticTaskDescriptor {
    pub fn new(name: &'static str, id: u32, interval: u64) -> (r: Self)
        ensures
            r.name == name,
            r.id == id,
            r.interval == interval,
    {
        StaticTaskDescriptor { name, id, interval }
    }
}

/// A material as compiled into the program.
pub struct StaticMaterialDescriptor {
    pub name: &'static str,
    pub font: &'static str,
    pub texture: &'static str,
    pub texture_binding: u32,
    pub texture_filtering: bool,
    pub vertex_shader: &'static str,
    pub fragment_shader: &'static str,
    pub blending: bool,
    pub blend_mode: &'static str,
    pub backface_culling: bool,
    pub frontface_clockwise: bool,
    pub depth_testing: bool,
    pub depth_writing: bool,
}

impl StaticMaterialDescriptor {
    pub fn new(
        name: &'static str,
        font: &'static str,
        texture: &'static str,
        texture_binding: u32,
        texture_filtering: bool,
        vertex_shader: &'static str,
        fragment_shader: &'static str,
        blending: bool,
        blend_mode: &'static str,
        backface_culling: bool,
        frontface_clockwise: bool,
        depth_testing: bool,
        depth_writing: bool,
    ) -> (r: Self)
        ensures
            r == (StaticMaterialDescriptor {
                name,
                font,
                texture,
                texture_binding,
                texture_filtering,
                vertex_shader,
                fragment_shader,
                blending,
                blend_mode,
                backface_culling,
                frontface_clockwise,
                depth_testing,
                depth_writing,
            }),
    {
        StaticMaterialDescriptor {
            name,
            font,
            texture,
            texture_binding,
            texture_filtering,
            vertex_shader,
            fragment_shader,
            blending,
            blend_mode,
            backface_culling,
            frontface_clockwise,
            depth_testing,
            depth_writing,
        }
    }
}

/// A font as compiled into the program.
pub struct StaticFontDescriptor {
    pub name: &'static str,
    pub charset: &'static str,
    pub char_width: u32,
    pub char_height: u32,
    pub texture: &'static str,
}

impl StaticFontDescriptor {
    pub fn new(name: &'static str, charset: &'static str, char_width: u32, char_height: u32, texture: &'static str) -> (r: Self)
        ensures
            r == (StaticFontDescriptor { name, charset, char_width, char_height, texture }),
    {
        StaticFontDescriptor { name, charset, char_width, char_height, texture }
    }
}

/// A font as a manifest states it.
pub struct FontDescriptor {
    name: String,
    charset: String,
    texture: String,
    char_width: u32,
    char_height: u32,
}

impl FontDescriptor {
    pub fn new(name: String, charset: String, texture: String, char_width: u32, char_height: u32) -> (r: Self)
        ensures
            r.spec_name() == name@,
            r.spec_charset() == charset@,
            r.spec_texture() == texture@,
            r.spec_char_width() == char_width,
            r.spec_char_height() == char_height,
    {
        FontDescriptor { name, charset, texture, char_width, char_height }
    }

    pub closed spec fn spec_name(&self) -> Seq<char> {
        self.name@
    }

    pub closed spec fn spec_charset(&self) -> Seq<char> {
        self.charset@
    }

    pub closed spec fn spec_texture(&self) -> Seq<char> {
        self.texture@
    }

    pub closed spec fn spec_char_width(&self) -> u32 {
        self.char_width
    }

    pub closed spec fn spec_char_height(&self) -> u32 {
        self.char_height
    }

    pub fn name(&self) -> (r: &str)
        ensures
            r@ == self.spec_name(),
    {
        self.name.as_str()
    }

    pub fn charset(&self) -> (r: &str)
        ensures
            r@ == self.spec_charset(),
    {
        self.charset.as_str()
    }

    pub fn char_width(&self) -> (r: u32)
        ensures
            r == self.spec_char_width(),
    {
        self.char_width
    }

    pub fn char_height(&self) -> (r: u32)
        ensures
            r == self.spec_char_height(),
    {
        self.char_height
    }

    pub fn texture(&self) -> (r: &str)
        ensures
            r@ == self.spec_texture(),
    {
        self.texture.as_str()
    }
}

/// A data blob as a manifest states it: an optional name and a path.
pub struct DataDescriptor {
    name: String,
    path: String,
}

impl DataDescriptor {
    pub fn new(name: String, path: String) -> (r: Self)
        ensures
            r.spec_name() == name@,
            r.spec_path() == path@,
    {
        DataDescriptor { name, path }
    }

    pub closed spec fn spec_name(&self) -> Seq<char> {
        self.name@
    }

    pub closed spec fn spec_path(&self) -> Seq<char> {
        self.path@
    }

    /// The given name, or else the stem of the path.
    pub fn name(&self) -> (r: String)
        ensures
            r@ == spec_name_from_path(self.spec_name(), self.spec_path()),
    {
        name_from_path(self.name.as_str(), self.path.as_str())
    }

    pub fn path(&self) -> (r: &str)
        ensures
            r@ == self.spec_path(),
    {
        self.path.as_str()
    }
}

/// A texture as a manifest states it: an optional name and a path.
pub struct TextureDescriptor {
    name: String,
    path: String,
}

impl TextureDescriptor {
    pub fn new(name: String, path: String) -> (r: Self)
        ensures
            r.spec_name() == name@,
            r.spec_path() == path@,
    {
        TextureDescriptor { name, path }
    }

    pub closed spec fn spec_name(&self) -> Seq<char> {
        self.name@
    }

    pub closed spec fn spec_path(&self) -> Seq<char> {
        self.path@
    }

    /// The given name, or else the stem of the path.
    pub fn name(&self) -> (r: String)
        ensures
            r@ == spec_name_from_path(self.spec_name(), self.spec_path()),
    {
        name_from_path(self.name.as_str(), self.path.as_str())
    }

    pub fn path(&self) -> (r: &str)
        ensures
            r@ == self.spec_path(),
    {
        self.path.as_str()
    }
}

/// A shader as a manifest states it: an optional name and a path.
pub struct ShaderDescriptor {
    name: String,
    path: String,
}

impl ShaderDescriptor {
    pub fn new(name: String, path: String) -> (r: Self)
        ensures
            r.spec_name() == name@,
            r.spec_path() == path@,
    {
        ShaderDescriptor { name, path }
    }

    pub closed spec fn spec_name(&self) -> Seq<char> {
        self.name@
    }

    pub closed spec fn spec_path(&self) -> Seq<char> {
        self.path@
    }

    /// The given name, or else the stem of the path.
    pub fn name(&self) -> (r: String)
        ensures
            r@ == spec_name_from_path(self.spec_name(), self.spec_path()),
    {
        name_from_path(self.name.as_str(), self.path.as_str())
    }

    pub fn path(&self) -> (r: &str)
        ensures
            r@ == self.spec_path(),
    {
        self.path.as_str()
    }
}

/// A bitmap as a manifest states it: an optional name and a path.
pub struct BitmapDescriptor {
    name: String,
    path: String,
}

impl BitmapDescriptor {
    pub fn new(name: String, path: String) -> (r: Self)
        ensures
            r.spec_name() == name@,
            r.spec_path() == path@,
    {
        BitmapDescriptor { name, path }
    }

    pub closed spec fn spec_name(&self) -> Seq<char> {
        self.name@
    }

    pub closed spec fn spec_path(&self) -> Seq<char> {
        self.path@
    }

    /// The given name, or else the stem of the path.
    pub fn name(&self) -> (r: String)
        ensures
            r@ == spec_name_from_path(self.spec_name(), self.spec_path()),
    {
        name_from_path(self.name.as_str(), self.path.as_str())
    }

    pub fn path(&self) -> (r: &str)
        ensures
            r@ == self.spec_path(),
    {
        self.path.as_str()
    }
}

/// A music track as a manifest states it: an optional name and a path.
pub struct MusicDescriptor {
    name: String,
    path: String,
}

impl MusicDescriptor {
    pub fn new(name: String, path: String) -> (r: Self)
        ensures
            r.spec_name() == name@,
            r.spec_path() == path@,
    {
        MusicDescriptor { name, path }
    }

    pub closed spec fn spec_name(&self) -> Seq<char> {
        self.name@
    }

    pub closed spec fn spec_path(&self) -> Seq<char> {
        self.path@
    }

    /// The given name, or else the stem of the path.
    pub fn name(&self) -> (r: String)
        ensures
            r@ == spec_name_from_path(self.spec_name(), self.spec_path()),
    {
        name_from_path(self.name.as_str(), self.path.as_str())
    }

    pub fn path(&self) -> (r: &str)
        ensures
            r@ == self.spec_path(),
    {
        self.path.as_str()
    }
}

/// A sound sample as a manifest states it: an optional name and a path.
pub struct SampleDescriptor {
    name: String,
    path: String,
}

impl SampleDescriptor {
    pub fn new(name: String, path: String) -> (r: Self)
        ensures
            r.spec_name() == name@,
            r.spec_path() == path@,
    {
        SampleDescriptor { name, path }
    }

    pub closed spec fn spec_name(&self) -> Seq<char> {
        self.name@
    }

    pub closed spec fn spec_path(&self) -> Seq<char> {
        self.path@
    }

    /// The given name, or else the stem of the path.
    pub fn name(&self) -> (r: String)
        ensures
            r@ == spec_name_from_path(self.spec_name(), self.spec_path()),
    {
        name_from_path(self.name.as_str(), self.path.as_str())
    }

    pub fn path(&self) -> (r: &str)
        ensures
            r@ == self.spec_path(),
    {
        self.path.as_str()
    }
}

/// A data blob as compiled into the program: its bytes.
pub struct StaticDataDescriptor {
    pub name: &'static str,
    pub data: &'static [u8],
    pub size: usize,
}

impl StaticDataDescriptor {
    pub fn new(name: &'static str, data: &'static [u8]) -> (r: Self)
        ensures
            r.name == name,
            r.data == data,
            r.size == data@.len(),
    {
        StaticDataDescriptor { name, data, size: data.len() }
    }
}

/// A texture as compiled into the program: its bytes and their format.
pub struct StaticTextureDescriptor {
    pub name: &'static str,
    pub data: &'static [u8],
    pub size: usize,
    pub format: &'static str,
}

impl StaticTextureDescriptor {
    pub fn new(name: &'static str, data: &'static [u8], format: &'static str) -> (r: Self)
        ensures
            r.name == name,
            r.data == data,
            r.size == data@.len(),
            r.format == format,
    {
        StaticTextureDescriptor { name, data, size: data.len(), format }
    }
}

/// A shader as compiled into the program: its bytes and their format.
pub struct StaticShaderDescriptor {
    pub name: &'static str,
    pub data: &'static [u8],
    pub size: usize,
    pub format: &'static str,
}

impl StaticShaderDescriptor {
    pub fn new(name: &'static str, data: &'static [u8], format: &'static str) -> (r: Self)
        ensures
            r.name == name,
            r.data == data,
            r.size == data@.len(),
            r.format == format,
    {
        StaticShaderDescriptor { name, data, size: data.len(), format }
    }
}

/// A bitmap as compiled into the program: its bytes and their format.
pub struct StaticBitmapDescriptor {
    pub name: &'static str,
    pub data: &'static [u8],
    pub size: usize,
    pub format: &'static str,
}

impl StaticBitmapDescriptor {
    pub fn new(name: &'static str, data: &'static [u8], format: &'static str) -> (r: Self)
        ensures
            r.name == name,
            r.data == data,
            r.size == data@.len(),
            r.format == format,
    {
        StaticBitmapDescriptor { name, data, size: data.len(), format }
    }
}

/// A music track as compiled into the program: its bytes.
pub struct StaticMusicDescriptor {
    pub name: &'static str,
    pub data: &'static [u8],
    pub size: usize,
}

impl StaticMusicDescriptor {
    pub fn new(name: &'static str, data: &'static [u8]) -> (r: Self)
        ensures
            r.name == name,
            r.data == data,
            r.size == data@.len(),
    {
        StaticMusicDescriptor { name, data, size: data.len() }
    }
}

/// A sound sample as compiled into the program: its bytes.
pub struct StaticSampleDescriptor {
    pub name: &'static str,
    pub data: &'static [u8],
    pub size: usize,
}

impl StaticSampleDescriptor {
    pub fn new(name: &'static str, data: &'static [u8]) -> (r: Self)
        ensures
            r.name == name,
            r.data == data,
            r.size == data@.len(),
    {
        StaticSampleDescriptor { name, data, size: data.len() }
    }
}

/// Everything a program compiles in: its options and its resource tables.
pub struct ApplicationDescriptorTable {
    pub options: &'static StaticOptionsDescriptor,
    pub data: &'static [StaticDataDescriptor],
    pub bitmaps: &'static [StaticBitmapDescriptor],
    pub textures: &'static [StaticTextureDescriptor],
    pub fonts: &'static [StaticFontDescriptor],
    pub shaders: &'static [StaticShaderDescriptor],
    pub materials: &'static [StaticMaterialDescriptor],
    pub tasks: &'static [StaticTaskDescriptor],
    pub music: &'static [StaticSampleDescriptor],
    pub samples: &'static [StaticSampleDescriptor],
}

} // verus!
