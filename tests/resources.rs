use gamekit::material::ShaderType;
use gamekit::shader::{shader_code_words, shader_type_of_format, ShaderCode};
use gamekit::instance::required_instance_extension_names;
use gamekit::audio::MixerChannel;
use gamekit::bitmap::Bitmap;
use gamekit::data::StaticData;
use gamekit::error::{Error, ErrorKind};
use gamekit::font::Font;
use gamekit::input::{Input, InputEventListener, Key};
use gamekit::instance::required_layer_names;
use gamekit::manifest::{
    name_from_path, BitmapDescriptor, DataDescriptor, FontDescriptor, StaticDataDescriptor, StaticFontDescriptor,
    StaticTaskDescriptor, TextureDescriptor,
};
use gamekit::options::{Options, ScalingMode};
use gamekit::task::TaskInfo;
use gamekit::manifest::StaticOptionsDescriptor;

#[test]
fn name_falls_back_to_path_stem() {
    assert_eq!(name_from_path("hero", "sprites/player.png"), "hero");
    assert_eq!(name_from_path("", "sprites/player.png"), "player");
    assert_eq!(name_from_path("", "archive.tar.gz"), "archive.tar");
    assert_eq!(name_from_path("", ""), "");
    let d = DataDescriptor::new(String::new(), "levels/one.bin".to_string());
    assert_eq!(d.name(), "one");
    assert_eq!(d.path(), "levels/one.bin");
    let t = TextureDescriptor::new("atlas".to_string(), "gfx/a.png".to_string());
    assert_eq!(t.name(), "atlas");
    let b = BitmapDescriptor::new(String::new(), "font.64c".to_string());
    assert_eq!(b.name(), "font");
}

#[test]
fn scaling_mode_names_any_case() {
    assert_eq!(ScalingMode::from_string("SCALE"), ScalingMode::SCALE);
    assert_eq!(ScalingMode::from_string("Zoom"), ScalingMode::ZOOM);
    assert_eq!(ScalingMode::from_string("center"), ScalingMode::CENTER);
    assert_eq!(ScalingMode::from_string("resize"), ScalingMode::RESIZE);
    assert_eq!(ScalingMode::from_string("stretch"), ScalingMode::DISABLED);
    assert_eq!(ScalingMode::from_lowercase("SCALE"), ScalingMode::DISABLED);
}

#[test]
fn options_defaults_and_setters() {
    let mut o = Options::default();
    assert_eq!(o.title, "gamekit");
    assert_eq!(o.window_width, 400);
    assert_eq!(o.window_height, 300);
    assert_eq!(o.fps, 60);
    assert_eq!(o.queue_size, 2048);
    o.set_title("demo").set_window_size(800, 600).set_fps(30).set_headless(true);
    o.set_window_position(10, 20).set_view_size(320, 200).set_scaling_mode(ScalingMode::ZOOM).set_show_statistics(true);
    assert_eq!(o.title, "demo");
    assert_eq!((o.window_width, o.window_height), (800, 600));
    assert_eq!((o.window_x, o.window_y), (10, 20));
    assert_eq!((o.view_width, o.view_height), (320, 200));
    assert_eq!(o.fps, 30);
    assert!(o.headless);
    assert!(o.show_statistics);
    assert_eq!(o.scaling_mode, ScalingMode::ZOOM);
}

#[test]
fn options_from_static_defaults_queue_size() {
    let d = StaticOptionsDescriptor {
        title: "app",
        window_x: 1,
        window_y: 2,
        window_width: 3,
        window_height: 4,
        view_width: 5,
        view_height: 6,
        scaling_mode: ScalingMode::SCALE,
        fps: 50,
        show_statistics: true,
        queue_size: 0,
        headless: false,
        enable_validation_layer: true,
        enable_api_dump_layer: false,
    };
    let o = Options::from_static(&d);
    assert_eq!(o.title, "app");
    assert_eq!(o.queue_size, 2048);
    assert_eq!(o.view_height, 6);
    assert!(o.enable_validation_layer);
    let d2 = StaticOptionsDescriptor { queue_size: 10, ..d };
    assert_eq!(Options::from_static(&d2).queue_size, 10);
}

#[test]
fn charmem_decodes_bits_to_pixels() {
    let mut data = vec![0u8; 16];
    data[0] = 0b1000_0001;
    data[9] = 0b0100_0000;
    let b = Bitmap::from_charmem(&data).unwrap();
    assert_eq!(b.width(), 16);
    assert_eq!(b.height(), 8);
    assert_eq!(b.bits_per_pixel(), 32);
    assert_eq!(b.bytes_per_line(), 64);
    assert_eq!(b.size(), 512);
    let p = b.pixels();
    assert_eq!(&p[0..4], &[0xff; 4]);
    assert_eq!(&p[4..8], &[0; 4]);
    assert_eq!(&p[28..32], &[0xff; 4]);
    // second character, second row, second pixel
    let at = 64 + (8 + 1) * 4;
    assert_eq!(&p[at..at + 4], &[0xff; 4]);
    assert_eq!(p.iter().filter(|v| **v == 0xff).count(), 12);
}

#[test]
fn charmem_skips_load_address() {
    let mut data = vec![0u8; 10];
    data[0] = 0xff;
    data[1] = 0xff;
    data[2] = 0b0000_0001;
    let b = Bitmap::from_charmem(&data).unwrap();
    assert_eq!(b.width(), 8);
    let p = b.pixels();
    assert_eq!(&p[28..32], &[0xff; 4]);
    assert_eq!(p.iter().filter(|v| **v == 0xff).count(), 4);
}

#[test]
fn charmem_too_short_fails() {
    let err = Bitmap::from_charmem(&[0u8; 7]).err().unwrap();
    assert_eq!(err.kind(), ErrorKind::GenericGpu);
}

#[test]
fn bitmap_layouts() {
    let b = Bitmap::new(10, 4, 24, 0);
    assert_eq!(b.bytes_per_line(), 30);
    assert_eq!(b.size(), 120);
    assert!(b.pixels().is_empty());
    let a = Bitmap::allocate(2, 2, 32, 16);
    assert_eq!(a.bytes_per_line(), 16);
    assert_eq!(a.pixels().len(), 32);
    let d = Bitmap::from_data(2, 3, 8, vec![1; 12]).unwrap();
    assert_eq!(d.bytes_per_line(), 4);
    assert_eq!(d.size(), 12);
}

#[test]
fn font_metrics() {
    let f = Font::new("abc", 8, 16, 64).unwrap();
    assert_eq!(f.size(), 8);
    assert_eq!(f.charset(), "abc");
    assert_eq!(f.char_width(), 8);
    assert_eq!(f.char_height(), 16);
    let d = StaticFontDescriptor::new("mono", "0123", 4, 4, "tex");
    let g = Font::from_resource(&d, 16).unwrap();
    assert_eq!(g.size(), 4);
    let fd = FontDescriptor::new("mono".into(), "0123".into(), "tex".into(), 4, 5);
    assert_eq!(fd.name(), "mono");
    assert_eq!(fd.texture(), "tex");
    assert_eq!(fd.charset(), "0123");
    assert_eq!(fd.char_height(), 5);
    assert_eq!(fd.char_width(), 4);
}

#[test]
fn static_data_bytes() {
    static BYTES: [u8; 3] = [1, 2, 3];
    let d = StaticDataDescriptor::new("blob", &BYTES);
    assert_eq!(d.size, 3);
    let s = StaticData::from_resource(&d).unwrap();
    assert_eq!(s.size(), 3);
    assert_eq!(s.data(), &[1, 2, 3]);
}

struct Recorder {
    changes: Vec<(u32, u32)>,
}

impl InputEventListener for Recorder {
    fn on_keystate_change(&mut self, keystate: u32, oldstate: u32) {
        self.changes.push((keystate, oldstate));
    }
}

#[test]
fn keyboard_state_tracks_keys() {
    let mut input = Input::new().unwrap();
    let mut rec = Recorder { changes: vec![] };
    assert!(input.dispatch_key(Key::Left, true, &mut rec));
    assert!(input.dispatch_key(Key::LeftCtrl, true, &mut rec));
    assert!(!input.dispatch_key(Key::Left, true, &mut rec));
    assert!(!input.dispatch_key(Key::Other, true, &mut rec));
    assert!(input.dispatch_key(Key::Left, false, &mut rec));
    assert_eq!(input.keyboard_state(), Input::KEYFLAG_BUTTON1);
    assert_eq!(rec.changes, vec![(0x1, 0x0), (0x11, 0x1), (0x10, 0x11)]);
}

#[test]
fn layer_names_follow_flags() {
    assert_eq!(required_layer_names(true, true), vec!["VK_LAYER_KHRONOS_validation", "VK_LAYER_LUNARG_api_dump"]);
    assert_eq!(required_layer_names(false, true), vec!["VK_LAYER_LUNARG_api_dump"]);
    assert!(required_layer_names(false, false).is_empty());
}

#[test]
fn small_value_types() {
    let t = TaskInfo::new("loader", 3);
    assert_eq!(t.name(), "loader");
    assert_eq!(t.id(), 3);
    assert_eq!(TaskInfo::default().id(), 0);
    assert_eq!(MixerChannel::from(5).as_raw(), 5);
    let s = StaticTaskDescriptor::new("tick", 1, 16);
    assert_eq!(s.interval, 16);
    let e = Error::new(ErrorKind::GenericGpu, "boom");
    assert_eq!(e.message(), "boom");
}

#[test]
fn instance_extensions_in_order() {
    let platform = vec!["VK_KHR_xlib_surface".to_string()];
    assert_eq!(
        required_instance_extension_names(&platform, true),
        vec!["VK_KHR_surface", "VK_KHR_get_physical_device_properties2", "VK_KHR_xlib_surface", "VK_EXT_debug_utils"]
    );
    assert_eq!(required_instance_extension_names(&vec![], false).len(), 2);
}

#[test]
fn shader_words_are_little_endian() {
    assert_eq!(shader_code_words(&[0x03, 0x02, 0x23, 0x07, 0xff, 0, 0, 0, 9]), vec![0x0723_0203, 0xff]);
    assert!(shader_code_words(&[1, 2, 3]).is_empty());
    assert_eq!(shader_type_of_format("vertex"), ShaderType::VERTEX_SHADER);
    assert_eq!(shader_type_of_format("fragment"), ShaderType::FRAGMENT_SHADER);
    static CODE: [u8; 4] = [1, 0, 0, 0];
    let d = gamekit::manifest::StaticShaderDescriptor::new("quad", &CODE, "vertex");
    let s = ShaderCode::from_resource(&d);
    assert_eq!(s.code, vec![1]);
    assert_eq!(s.shader_type, ShaderType::VERTEX_SHADER);
}
