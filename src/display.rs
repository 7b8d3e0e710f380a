//! The emulator's picture, input and debug views: a frame buffer of RGB
//! triples that the emulation core draws into, the mapping from the host's
//! button codes, and the choice of video filter.

use vstd::prelude::*;

verus! {

/// Relies on nes_rust::display::SCREEN_WIDTH: the picture is 256 pixels wide.
#[verifier::external_body]
fn screen_width() -> (r: usize)
    ensures
        r == 256,
{
    nes_rust::display::SCREEN_WIDTH as usize
}

/// Relies on nes_rust::display::SCREEN_HEIGHT: the picture is 240 pixels high.
#[verifier::external_body]
fn screen_height() -> (r: usize)
    ensures
        r == 240,
{
    nes_rust::display::SCREEN_HEIGHT as usize
}

/// Pixels in one row of the picture.
pub open spec fn spec_width() -> nat {
    256
}

/// Rows in the picture.
pub open spec fn spec_height() -> nat {
    240
}

/// Bytes in one frame: three per pixel, red, green and blue.
pub open spec fn frame_len() -> nat {
    spec_width() * spec_height() * 3
}

/// Where the three bytes of pixel `(x, y)` start in a frame.
pub open spec fn pixel_offset(x: nat, y: nat) -> nat {
    (y * spec_width() + x) * 3
}

/// The frame buffer the emulation core draws into.
pub struct NativeDisplay {
    pixels: Vec<u8>,
}

impl NativeDisplay {
    /// The bytes of the frame.
    pub closed spec fn view(&self) -> Seq<u8> {
        self.pixels@
    }

    /// A black frame.
    pub fn new() -> (r: Self)
        ensures
            r@.len() == frame_len(),
            forall|i: int| 0 <= i < r@.len() ==> r@[i] == 0,
    {
        let len = screen_width() * screen_height() * 3;
        NativeDisplay { pixels: vec![0u8; len] }
    }

    /// Sets pixel `(x, y)` to the colour `c`, whose low byte is red, next
    /// green, next blue. A pixel outside the picture is ignored.
    pub fn render_pixel(&mut self, x: u16, y: u16, c: u32)
        requires
            old(self)@.len() == frame_len(),
        ensures
            final(self)@ == if x < spec_width() && y < spec_height() {
                old(self)@
                    .update(pixel_offset(x as nat, y as nat) as int, (c % 256) as u8)
                    .update(pixel_offset(x as nat, y as nat) + 1int, ((c / 256) % 256) as u8)
                    .update(pixel_offset(x as nat, y as nat) + 2int, ((c / 65536) % 256) as u8)
            } else {
                old(self)@
            },
    {
        let width = screen_width();
        let height = screen_height();
        let x = x as usize;
        let y = y as usize;
        if x >= width || y >= height {
            return;
        }
        assert((y * 256 + x) * 3 + 2 < frame_len()) by (nonlinear_arith)
            requires
                x < 256,
                y < 240,
        ;
        let base = (y * width + x) * 3;
        let r = (c & 0xff) as u8;
        let g = ((c >> 8) & 0xff) as u8;
        let b = ((c >> 16) & 0xff) as u8;
        assert(c & 0xff == c % 256) by (bit_vector);
        assert((c >> 8) & 0xff == (c / 256) % 256) by (bit_vector);
        assert((c >> 16) & 0xff == (c / 65536) % 256) by (bit_vector);
        self.pixels.set(base, r);
        self.pixels.set(base + 1, g);
        self.pixels.set(base + 2, b);
    }

    /// Copies the frame into `pixels`, as far as both reach.
    pub fn copy_to_rgba_pixels(&self, pixels: &mut [u8])
        ensures
            final(pixels)@.len() == old(pixels)@.len(),
            forall|i: int|
                0 <= i < old(pixels)@.len() ==> #[trigger] final(pixels)@[i] == if i < self@.len() {
                    self@[i]
                } else {
                    old(pixels)@[i]
                },
    {
        let len = if pixels.len() < self.pixels.len() {
            pixels.len()
        } else {
            self.pixels.len()
        };
        let mut i: usize = 0;
        while i < len
            invariant
                len <= pixels@.len(),
                len <= self@.len(),
                i <= len,
                pixels@.len() == old(pixels)@.len(),
                forall|j: int|
                    0 <= j < pixels@.len() ==> #[trigger] pixels@[j] == if j < i {
                        self@[j]
                    } else {
                        old(pixels)@[j]
                    },
            decreases len - i,
        {
            pixels[i] = self.pixels[i];
            i = i + 1;
        }
    }
}

/// A button of the first joypad, or of the console.
#[derive(Clone, Copy, Debug, PartialEq, Eq, Structural)]
pub enum JoypadButton {
    Select,
    Start,
    A,
    B,
    Up,
    Down,
    Left,
    Right,
}

/// The button the host means by `code`, if any.
pub open spec fn button_of(code: u8) -> Option<JoypadButton> {
    if code == 0 {
        Some(JoypadButton::Select)
    } else if code == 1 {
        Some(JoypadButton::Start)
    } else if code == 2 {
        Some(JoypadButton::A)
    } else if code == 3 {
        Some(JoypadButton::B)
    } else if code == 4 {
        Some(JoypadButton::Up)
    } else if code == 5 {
        Some(JoypadButton::Down)
    } else if code == 6 {
        Some(JoypadButton::Left)
    } else if code == 7 {
        Some(JoypadButton::Right)
    } else {
        None
    }
}

/// Maps a host button code to a button; codes past `7` mean none.
pub fn map_button(code: u8) -> (r: Option<JoypadButton>)
    ensures
        r == button_of(code),
{
    match code {
        0 => Some(JoypadButton::Select),
        1 => Some(JoypadButton::Start),
        2 => Some(JoypadButton::A),
        3 => Some(JoypadButton::B),
        4 => Some(JoypadButton::Up),
        5 => Some(JoypadButton::Down),
        6 => Some(JoypadButton::Left),
        7 => Some(JoypadButton::Right),
        _ => None,
    }
}

/// The post-processing applied to each frame.
#[derive(Clone, Copy, Debug, PartialEq, Eq, Structural)]
pub enum VideoFilterMode {
    Off,
    NtscComposite,
    NtscSvideo,
    NtscRgb,
}

impl VideoFilterMode {
    /// The filter the host means by `code`; an unknown code turns filtering off.
    pub fn from_code(code: u8) -> (r: Self)
        ensures
            r == (if code == 1 {
                VideoFilterMode::NtscComposite
            } else if code == 2 {
                VideoFilterMode::NtscSvideo
            } else if code == 3 {
                VideoFilterMode::NtscRgb
            } else {
                VideoFilterMode::Off
            }),
    {
        match code {
            1 => VideoFilterMode::NtscComposite,
            2 => VideoFilterMode::NtscSvideo,
            3 => VideoFilterMode::NtscRgb,
            _ => VideoFilterMode::Off,
        }
    }
}

/// The processor's registers, for debugging.
#[derive(Clone, Copy, Debug, PartialEq, Eq, Structural)]
pub struct CpuDebugState {
    pub pc: u16,
    pub a: u8,
    pub x: u8,
    pub y: u8,
    pub sp: u8,
    pub p: u8,
    pub last_pc: u16,
    pub last_opcode: u8,
}

/// The cartridge mapper's registers, for debugging.
#[derive(Clone, Copy, Debug, PartialEq, Eq, Structural)]
pub struct MapperDebugState {
    pub mapper_num: u8,
    pub control: u8,
    pub prg: u8,
    pub chr0: u8,
    pub chr1: u8,
    pub prg_mode: u8,
    pub chr_mode: u8,
    pub outer_prg: u8,
}

/// The processor and mapper registers together.
#[derive(Clone, Copy, Debug, PartialEq, Eq, Structural)]
pub struct NesDebugState {
    pub cpu: CpuDebugState,
    pub mapper: MapperDebugState,
}

} // verus!
