//! Decisions of the OpenGL (WGL) set-up of a window: which Win32 call comes
//! next, what each result means, and which handles are given back when a
//! step fails. The calls themselves are made by the caller, which hands
//! each result back.

use vstd::prelude::*;

verus! {

/// `PIXELFORMATDESCRIPTOR` flag: the buffer can draw to a window.
pub const PFD_DRAW_TO_WINDOW: u32 = 0x04;
/// `PIXELFORMATDESCRIPTOR` flag: the buffer supports OpenGL drawing.
pub const PFD_SUPPORT_OPENGL: u32 = 0x20;
/// `PIXELFORMATDESCRIPTOR` flag: the buffer is double-buffered.
pub const PFD_DOUBLEBUFFER: u32 = 0x01;
/// `PIXELFORMATDESCRIPTOR` pixel type: RGBA pixels.
pub const PFD_TYPE_RGBA: u8 = 0;
/// `PIXELFORMATDESCRIPTOR` layer type: the main plane.
pub const PFD_MAIN_PLANE: u8 = 0;
/// `wglCreateContextAttribsARB` attribute: the major version asked for.
pub const WGL_CONTEXT_MAJOR_VERSION_ARB: i32 = 0x2091;
/// `wglCreateContextAttribsARB` attribute: the minor version asked for.
pub const WGL_CONTEXT_MINOR_VERSION_ARB: i32 = 0x2092;

/// The fields of the `PIXELFORMATDESCRIPTOR` that the set-up asks for.
#[derive(Debug, Clone, Copy, PartialEq, Eq, Structural)]
pub struct PixelFormatRequest {
    pub version: u16,
    pub flags: u32,
    pub pixel_type: u8,
    pub color_bits: u8,
    pub depth_bits: u8,
    pub stencil_bits: u8,
    pub layer_type: u8,
}

/// The pixel format the set-up asks for: version 1, drawing to a window
/// with OpenGL and double buffering, 32-bit RGBA colour, a 24-bit depth and
/// an 8-bit stencil buffer, on the main plane.
pub fn pixel_format_request() -> (r: PixelFormatRequest)
    ensures
        r.version == 1,
        r.flags == PFD_DRAW_TO_WINDOW | PFD_SUPPORT_OPENGL | PFD_DOUBLEBUFFER,
        r.flags == 0x25,
        r.pixel_type == PFD_TYPE_RGBA,
        r.color_bits == 32,
        r.depth_bits == 24,
        r.stencil_bits == 8,
        r.layer_type == PFD_MAIN_PLANE,
{
    let flags: u32 = PFD_DRAW_TO_WINDOW | PFD_SUPPORT_OPENGL | PFD_DOUBLEBUFFER;
    assert(0x04u32 | 0x20u32 | 0x01u32 == 0x25u32) by (bit_vector);
    PixelFormatRequest {
        version: 1,
        flags,
        pixel_type: PFD_TYPE_RGBA,
        color_bits: 32,
        depth_bits: 24,
        stencil_bits: 8,
        layer_type: PFD_MAIN_PLANE,
    }
}

/// Why the OpenGL set-up failed.
#[derive(Debug, Clone, Copy, PartialEq, Eq, Structural)]
pub enum GlError {
    GetDcFailed,
    ChoosePixelFormatFailed,
    SetPixelFormatFailed,
    CreateContextFailed,
    MakeCurrentFailed,
    /// The result handed back is not one of the call the set-up awaits.
    UnexpectedResult,
}

impl GlError {
    /// The message that describes the error.
    pub fn message(&self) -> (m: &'static str)
        ensures
            *self == GlError::GetDcFailed ==> m@ == "Failed to get device context"@,
            *self == GlError::ChoosePixelFormatFailed ==> m@ == "Failed to choose pixel format"@,
            *self == GlError::SetPixelFormatFailed ==> m@ == "Failed to set pixel format"@,
            *self == GlError::CreateContextFailed ==> m@ == "Failed to create OpenGL context"@,
            *self == GlError::MakeCurrentFailed ==> m@ == "Failed to make OpenGL context current"@,
            *self == GlError::UnexpectedResult ==> m@
                == "Unexpected result during OpenGL set-up"@,
    {
        match self {
            GlError::GetDcFailed => "Failed to get device context",
            GlError::ChoosePixelFormatFailed => "Failed to choose pixel format",
            GlError::SetPixelFormatFailed => "Failed to set pixel format",
            GlError::CreateContextFailed => "Failed to create OpenGL context",
            GlError::MakeCurrentFailed => "Failed to make OpenGL context current",
            GlError::UnexpectedResult => "Unexpected result during OpenGL set-up",
        }
    }
}

/// An OpenGL context of a window: the window, its device context and the
/// rendering context, by handle.
pub struct GLContext {
    hwnd: usize,
    hdc: usize,
    hglrc: usize,
}

impl GLContext {
    /// The window handle.
    pub closed spec fn window(&self) -> usize {
        self.hwnd
    }

    /// The device-context handle.
    pub closed spec fn device_context(&self) -> usize {
        self.hdc
    }

    /// The rendering-context handle.
    pub closed spec fn rendering_context(&self) -> usize {
        self.hglrc
    }

    /// The device context.
    pub fn hdc(&self) -> (h: usize)
        ensures
            h == self.device_context(),
    {
        self.hdc
    }

    /// The OpenGL rendering context.
    pub fn hglrc(&self) -> (h: usize)
        ensures
            h == self.rendering_context(),
    {
        self.hglrc
    }

    /// The window.
    pub fn hwnd(&self) -> (h: usize)
        ensures
            h == self.window(),
    {
        self.hwnd
    }

    /// The outcome of making this context current, from the value
    /// `wglMakeCurrent` returned: 0 is a failure.
    pub fn make_current(&self, made_current: i32) -> (r: Result<(), GlError>)
        ensures
            made_current == 0 ==> r == Err::<(), GlError>(GlError::MakeCurrentFailed),
            made_current != 0 ==> r == Ok::<(), GlError>(()),
    {
        if made_current == 0 {
            Err(GlError::MakeCurrentFailed)
        } else {
            Ok(())
        }
    }

    /// The swap interval to set for vertical sync, if the
    /// `wglSwapIntervalEXT` entry point was found at `proc_addr` (0 when it
    /// was not): 1 when enabled, 0 when not.
    pub fn set_vsync(&self, proc_addr: usize, enabled: bool) -> (interval: Option<i32>)
        ensures
            proc_addr == 0 ==> interval is None,
            proc_addr != 0 ==> interval == Some(if enabled { 1i32 } else { 0i32 }),
    {
        if proc_addr == 0 {
            None
        } else {
            Some(if enabled { 1 } else { 0 })
        }
    }

    /// Decide about the core context that `wglCreateContextAttribsARB`
    /// created next to the compatibility context `dummy` (`core_hglrc`, 0
    /// when the entry point is missing or the creation failed). Without a
    /// core context the dummy is kept. With one, the core context takes the
    /// dummy's window and device context, is made current on it, and the
    /// dummy's rendering context is deleted (`retired`).
    pub fn new_core(dummy: &GLContext, core_hglrc: usize) -> (choice: CoreChoice)
        ensures
            core_hglrc == 0 ==> choice.core is None && choice.retired is None,
            core_hglrc != 0 ==> {
                &&& choice.core matches Some(c) && c.window() == dummy.window()
                    && c.device_context() == dummy.device_context() && c.rendering_context()
                    == core_hglrc
                &&& choice.retired == Some(dummy.rendering_context())
            },
    {
        if core_hglrc == 0 {
            CoreChoice { core: None, retired: None }
        } else {
            CoreChoice {
                core: Some(GLContext { hwnd: dummy.hwnd, hdc: dummy.hdc, hglrc: core_hglrc }),
                retired: Some(dummy.hglrc),
            }
        }
    }
}

/// The core context a core set-up settles on (none: keep the compatibility
/// context), and the rendering context it retires, if any.
pub struct CoreChoice {
    pub core: Option<GLContext>,
    pub retired: Option<usize>,
}

/// The attribute list for `wglCreateContextAttribsARB` asking for OpenGL
/// `major`.`minor`, ended by 0.
pub fn core_context_attribs(major: u8, minor: u8) -> (attribs: [i32; 5])
    ensures
        attribs@ == seq![
            WGL_CONTEXT_MAJOR_VERSION_ARB,
            major as i32,
            WGL_CONTEXT_MINOR_VERSION_ARB,
            minor as i32,
            0i32,
        ],
{
    [WGL_CONTEXT_MAJOR_VERSION_ARB, major as i32, WGL_CONTEXT_MINOR_VERSION_ARB, minor as i32, 0]
}

/// The Win32 call whose result the set-up awaits.
#[derive(Debug, Clone, Copy, PartialEq, Eq, Structural)]
pub enum GlCall {
    /// `GetDC(hwnd)`.
    GetDc,
    /// `ChoosePixelFormat(hdc, &request)`.
    ChoosePixelFormat,
    /// `SetPixelFormat(hdc, pixel_format, &request)`.
    SetPixelFormat,
    /// `wglCreateContext(hdc)`.
    CreateContext,
    /// `wglMakeCurrent(hdc, hglrc)`.
    MakeCurrent,
}

/// The result of a Win32 call of the set-up, as the caller hands it back.
#[derive(Debug, Clone, Copy, PartialEq, Eq, Structural)]
pub enum GlResult {
    Dc(usize),
    PixelFormatChosen(i32),
    PixelFormatSet(i32),
    ContextCreated(usize),
    MadeCurrent(i32),
}

/// A device context to give back with `ReleaseDC(hwnd, hdc)`.
#[derive(Debug, Clone, Copy, PartialEq, Eq, Structural)]
pub struct DcRelease {
    pub hwnd: usize,
    pub hdc: usize,
}

/// What to give back after a failed step: the device context to release,
/// the rendering context to delete, and the error.
#[derive(Debug, Clone, Copy, PartialEq, Eq, Structural)]
pub struct GlFailure {
    pub error: GlError,
    pub release_dc: Option<DcRelease>,
    pub delete_context: Option<usize>,
}

/// A set-up in progress: the handles acquired so far (0 for none) and the
/// call whose result it awaits.
pub struct GlSetup {
    hwnd: usize,
    hdc: usize,
    pixel_format: i32,
    hglrc: usize,
    awaiting: GlCall,
}

/// What the set-up does after a result.
pub enum GlStep {
    /// Make the call that the set-up now awaits.
    Next(GlSetup),
    /// Give back what the failure names and report its error.
    Failed(GlFailure),
    /// The context is made and current.
    Ready(GLContext),
}

impl GlSetup {
    /// The window.
    pub closed spec fn window(&self) -> usize {
        self.hwnd
    }

    /// The device context acquired, 0 while there is none.
    pub closed spec fn device_context(&self) -> usize {
        self.hdc
    }

    /// The pixel format chosen, 0 while there is none.
    pub closed spec fn chosen_format(&self) -> i32 {
        self.pixel_format
    }

    /// The rendering context created, 0 while there is none.
    pub closed spec fn rendering_context(&self) -> usize {
        self.hglrc
    }

    /// The call whose result the set-up awaits.
    pub closed spec fn awaits(&self) -> GlCall {
        self.awaiting
    }

    /// Which handles are held at each step: a device context from the
    /// pixel-format steps on, a chosen format from setting it on, and a
    /// rendering context only while making it current.
    #[verifier::type_invariant]
    spec fn held_by_step(&self) -> bool {
        match self.awaiting {
            GlCall::GetDc => self.hdc == 0 && self.pixel_format == 0 && self.hglrc == 0,
            GlCall::ChoosePixelFormat => self.hdc != 0 && self.pixel_format == 0 && self.hglrc == 0,
            GlCall::SetPixelFormat => self.hdc != 0 && self.pixel_format != 0 && self.hglrc == 0,
            GlCall::CreateContext => self.hdc != 0 && self.pixel_format != 0 && self.hglrc == 0,
            GlCall::MakeCurrent => self.hdc != 0 && self.pixel_format != 0 && self.hglrc != 0,
        }
    }

    /// The handles held match the awaited call: no device context before
    /// `GetDC` succeeds, no pixel format before `ChoosePixelFormat`
    /// succeeds, and no rendering context before `wglCreateContext`
    /// succeeds; each one, once acquired, is non-null.
    pub open spec fn handles_match_step(&self) -> bool {
        match self.awaits() {
            GlCall::GetDc => self.device_context() == 0 && self.chosen_format() == 0
                && self.rendering_context() == 0,
            GlCall::ChoosePixelFormat => self.device_context() != 0 && self.chosen_format() == 0
                && self.rendering_context() == 0,
            GlCall::SetPixelFormat => self.device_context() != 0 && self.chosen_format() != 0
                && self.rendering_context() == 0,
            GlCall::CreateContext => self.device_context() != 0 && self.chosen_format() != 0
                && self.rendering_context() == 0,
            GlCall::MakeCurrent => self.device_context() != 0 && self.chosen_format() != 0
                && self.rendering_context() != 0,
        }
    }

    /// What a failure in this state gives back, with the given error: the
    /// device context if one was acquired, and the rendering context if one
    /// was created.
    pub open spec fn give_back(&self, error: GlError) -> GlFailure {
        GlFailure {
            error,
            release_dc: if self.device_context() != 0 {
                Some(DcRelease { hwnd: self.window(), hdc: self.device_context() })
            } else {
                None
            },
            delete_context: if self.rendering_context() != 0 {
                Some(self.rendering_context())
            } else {
                None
            },
        }
    }

    /// A failure gives back every device context the set-up holds, with its
    /// window, whatever its value, and every rendering context it holds; it
    /// gives back nothing it does not hold.
    pub proof fn lemma_give_back_exact(&self, error: GlError)
        ensures
            self.give_back(error).error == error,
            self.device_context() != 0 ==> self.give_back(error).release_dc == Some(
                DcRelease { hwnd: self.window(), hdc: self.device_context() },
            ),
            self.device_context() == 0 ==> self.give_back(error).release_dc is None,
            self.rendering_context() != 0 ==> self.give_back(error).delete_context == Some(
                self.rendering_context(),
            ),
            self.rendering_context() == 0 ==> self.give_back(error).delete_context is None,
    {
    }

    /// Start the set-up of a context for window `hwnd`: the first call is
    /// `GetDC`.
    pub fn start(hwnd: usize) -> (s: GlSetup)
        ensures
            s.window() == hwnd,
            s.awaits() == GlCall::GetDc,
            s.device_context() == 0,
            s.chosen_format() == 0,
            s.rendering_context() == 0,
            s.handles_match_step(),
    {
        GlSetup { hwnd, hdc: 0, pixel_format: 0, hglrc: 0, awaiting: GlCall::GetDc }
    }

    /// The call whose result the set-up awaits.
    pub fn awaiting(&self) -> (c: GlCall)
        ensures
            c == self.awaits(),
    {
        self.awaiting
    }

    /// The window.
    pub fn hwnd(&self) -> (h: usize)
        ensures
            h == self.window(),
    {
        self.hwnd
    }

    /// The device context acquired, 0 while there is none.
    pub fn hdc(&self) -> (h: usize)
        ensures
            h == self.device_context(),
    {
        self.hdc
    }

    /// The pixel format chosen, 0 while there is none.
    pub fn pixel_format(&self) -> (f: i32)
        ensures
            f == self.chosen_format(),
    {
        self.pixel_format
    }

    /// The rendering context created, 0 while there is none.
    pub fn hglrc(&self) -> (h: usize)
        ensures
            h == self.rendering_context(),
    {
        self.hglrc
    }

    /// Go on from the result of the awaited call. A null device context,
    /// a zero pixel format, a failed `SetPixelFormat`, a null rendering
    /// context or a failed `wglMakeCurrent` fail the set-up, and a result
    /// of another call than the awaited one fails it too; every failure
    /// gives back exactly the handles acquired so far. Otherwise the set-up
    /// moves to the next call, and after making the context current it is
    /// ready.
    pub fn advance(self, result: GlResult) -> (step: GlStep)
        ensures
            match (self.awaits(), result) {
                (GlCall::GetDc, GlResult::Dc(hdc)) => if hdc == 0 {
                    step == GlStep::Failed(self.give_back(GlError::GetDcFailed))
                } else {
                    step matches GlStep::Next(s) && s.awaits() == GlCall::ChoosePixelFormat
                        && s.window() == self.window() && s.device_context() == hdc
                        && s.chosen_format() == 0 && s.rendering_context() == 0
                },
                (GlCall::ChoosePixelFormat, GlResult::PixelFormatChosen(f)) => if f == 0 {
                    step == GlStep::Failed(self.give_back(GlError::ChoosePixelFormatFailed))
                } else {
                    step matches GlStep::Next(s) && s.awaits() == GlCall::SetPixelFormat
                        && s.window() == self.window() && s.device_context()
                        == self.device_context() && s.chosen_format() == f
                        && s.rendering_context() == 0
                },
                (GlCall::SetPixelFormat, GlResult::PixelFormatSet(ok)) => if ok == 0 {
                    step == GlStep::Failed(self.give_back(GlError::SetPixelFormatFailed))
                } else {
                    step matches GlStep::Next(s) && s.awaits() == GlCall::CreateContext
                        && s.window() == self.window() && s.device_context()
                        == self.device_context() && s.chosen_format() == self.chosen_format()
                        && s.rendering_context() == 0
                },
                (GlCall::CreateContext, GlResult::ContextCreated(h)) => if h == 0 {
                    step == GlStep::Failed(self.give_back(GlError::CreateContextFailed))
                } else {
                    step matches GlStep::Next(s) && s.awaits() == GlCall::MakeCurrent
                        && s.window() == self.window() && s.device_context()
                        == self.device_context() && s.chosen_format() == self.chosen_format()
                        && s.rendering_context() == h
                },
                (GlCall::MakeCurrent, GlResult::MadeCurrent(ok)) => if ok == 0 {
                    step == GlStep::Failed(self.give_back(GlError::MakeCurrentFailed))
                } else {
                    step matches GlStep::Ready(c) && c.window() == self.window()
                        && c.device_context() == self.device_context() && c.rendering_context()
                        == self.rendering_context()
                },
                _ => step == GlStep::Failed(self.give_back(GlError::UnexpectedResult)),
            },
            step matches GlStep::Failed(f) ==> f == self.give_back(f.error),
            step matches GlStep::Failed(f) ==> {
                &&& self.device_context() != 0 ==> f.release_dc == Some(
                    DcRelease { hwnd: self.window(), hdc: self.device_context() },
                )
                &&& self.device_context() == 0 ==> f.release_dc is None
                &&& self.rendering_context() != 0 ==> f.delete_context == Some(
                    self.rendering_context(),
                )
                &&& self.rendering_context() == 0 ==> f.delete_context is None
            },
            step matches GlStep::Ready(c) ==> c.device_context() != 0 && c.rendering_context() != 0,
            step matches GlStep::Next(s) ==> s.device_context() != 0 && s.handles_match_step(),
            self.handles_match_step(),
    {
        proof {
            use_type_invariant(&self);
        }
        let hwnd = self.hwnd;
        let hdc = self.hdc;
        let pixel_format = self.pixel_format;
        let hglrc = self.hglrc;
        let release_dc = if hdc != 0 {
            Some(DcRelease { hwnd, hdc })
        } else {
            None
        };
        let delete_context = if hglrc != 0 {
            Some(hglrc)
        } else {
            None
        };
        match (self.awaiting, result) {
            (GlCall::GetDc, GlResult::Dc(new_hdc)) => {
                if new_hdc == 0 {
                    GlStep::Failed(GlFailure { error: GlError::GetDcFailed, release_dc, delete_context })
                } else {
                    GlStep::Next(
                        GlSetup {
                            hwnd,
                            hdc: new_hdc,
                            pixel_format: 0,
                            hglrc: 0,
                            awaiting: GlCall::ChoosePixelFormat,
                        },
                    )
                }
            },
            (GlCall::ChoosePixelFormat, GlResult::PixelFormatChosen(f)) => {
                if f == 0 {
                    GlStep::Failed(
                        GlFailure { error: GlError::ChoosePixelFormatFailed, release_dc, delete_context },
                    )
                } else {
                    GlStep::Next(
                        GlSetup {
                            hwnd,
                            hdc,
                            pixel_format: f,
                            hglrc: 0,
                            awaiting: GlCall::SetPixelFormat,
                        },
                    )
                }
            },
            (GlCall::SetPixelFormat, GlResult::PixelFormatSet(ok)) => {
                if ok == 0 {
                    GlStep::Failed(
                        GlFailure { error: GlError::SetPixelFormatFailed, release_dc, delete_context },
                    )
                } else {
                    GlStep::Next(
                        GlSetup {
                            hwnd,
                            hdc,
                            pixel_format,
                            hglrc: 0,
                            awaiting: GlCall::CreateContext,
                        },
                    )
                }
            },
            (GlCall::CreateContext, GlResult::ContextCreated(h)) => {
                if h == 0 {
                    GlStep::Failed(
                        GlFailure { error: GlError::CreateContextFailed, release_dc, delete_context },
                    )
                } else {
                    GlStep::Next(
                        GlSetup { hwnd, hdc, pixel_format, hglrc: h, awaiting: GlCall::MakeCurrent },
                    )
                }
            },
            (GlCall::MakeCurrent, GlResult::MadeCurrent(ok)) => {
                if ok == 0 {
                    GlStep::Failed(
                        GlFailure { error: GlError::MakeCurrentFailed, release_dc, delete_context },
                    )
                } else {
                    GlStep::Ready(GLContext { hwnd, hdc, hglrc })
                }
            },
            _ => GlStep::Failed(
                GlFailure { error: GlError::UnexpectedResult, release_dc, delete_context },
            ),
        }
    }
}

} // verus!
