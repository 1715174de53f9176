use vstd::prelude::*;
use crate::api::Disposable;
use crate::error::Error;
use crate::manifest::StaticFontDescriptor;

verus! {

/// A fixed-width font: a row of equally wide characters in a texture.
#[derive(Clone, Debug)]
pub struct Font {
    charset: &'static str,
    char_width: u32,
    char_height: u32,
    texture_width: u32,
}

impl Default for Font {
    fn default() -> (r: Font)
        ensures
            r.spec_charset().len() == 0,
            r.spec_char_width() == 0,
            r.spec_char_height() == 0,
            r.spec_texture_width() == 0,
    {
        proof {
            reveal_strlit("");
        }
        Font { charset: "", char_width: 0, char_height: 0, texture_width: 0 }
    }
}

impl Font {
    pub closed spec fn spec_charset(&self) -> Seq<char> {
        self.charset@
    }

    pub closed spec fn spec_char_width(&self) -> u32 {
        self.char_width
    }

    pub closed spec fn spec_char_height(&self) -> u32 {
        self.char_height
    }

    pub closed spec fn spec_texture_width(&self) -> u32 {
        self.texture_width
    }

    /// A font over a texture `texture_width` pixels wide.
    pub fn new(charset: &'static str, char_width: u32, char_height: u32, texture_width: u32) -> (r: Result<Font, Error>)
        ensures
            r.is_ok(),
            r.unwrap().spec_charset() == charset@,
            r.unwrap().spec_char_width() == char_width,
            r.unwrap().spec_char_height() == char_height,
            r.unwrap().spec_texture_width() == texture_width,
    {
        Ok(Font { charset, char_width, char_height, texture_width })
    }

    /// A font from its compiled descriptor, over a texture `texture_width` pixels wide.
    pub fn from_resource(descriptor: &StaticFontDescriptor, texture_width: u32) -> (r: Result<Font, Error>)
        ensures
            r.is_ok(),
            r.unwrap().spec_charset() == descriptor.charset@,
            r.unwrap().spec_char_width() == descriptor.char_width,
            r.unwrap().spec_char_height() == descriptor.char_height,
            r.unwrap().spec_texture_width() == texture_width,
    {
        Font::new(descriptor.charset, descriptor.char_width, descriptor.char_height, texture_width)
    }

    pub fn char_width(&self) -> (r: u32)
        ensures
            r == self.spec_char_width(),
    {
        self.char_width
    }

    pub fn char_height(&self) -> (r: u32)
        ensures
            r == self.spec_char_height(),
    {
        self.char_height
    }

    pub fn charset(&self) -> (r: &str)
        ensures
            r@ == self.spec_charset(),
    {
        self.charset
    }

    /// Number of characters that fit in the texture.
    pub fn size(&self) -> (r: usize)
        requires
            self.spec_char_width() > 0,
        ensures
            r == self.spec_texture_width() / self.spec_char_width(),
    {
        (self.texture_width / self.char_width) as usize
    }
}

impl Disposable for Font {
    fn dispose(&mut self) {
    }
}

} // verus!
