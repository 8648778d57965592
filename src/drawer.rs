use vstd::prelude::*;

use crate::color::Color;
use crate::draw_state::{DrawState, DrawStateMachine, Transition};
use crate::geometry::{ints_of, rect_to_vertices, spec_quad};
use crate::pos::{Position, Rect};
use crate::texture::{Dimensions, Texture};

verus! {

#[verifier::external_type_specification]
#[verifier::external_body]
pub struct ExDynamicImage(image::DynamicImage);

/// The RGBA8 bytes of an image, rows top first, with its width and height.
pub uninterp spec fn rgba8_of(image: image::DynamicImage) -> (Seq<u8>, u32, u32);

/// Relies on image's `DynamicImage::to_rgba8`, `ImageBuffer::dimensions` and
/// `ImageBuffer::into_raw`: the image as RGBA8 rows, top row first, with its
/// width and height, which depend on the image alone. The buffer holds at
/// least four bytes per pixel.
#[verifier::external_body]
fn rgba8_pixels(image: &image::DynamicImage) -> (r: (Vec<u8>, u32, u32))
    ensures
        (r.0@, r.1, r.2) == rgba8_of(*image),
        r.0@.len() >= r.1 * r.2 * 4,
{
    let rgba = image.to_rgba8();
    let (width, height) = rgba.dimensions();
    (rgba.into_raw(), width, height)
}

/// A GPU texture owned by the caller: the handle under which its pixels were
/// uploaded, and its size. Giving it back to `Drawer::release_texture`
/// consumes it, so it is released at most once.
#[derive(Debug)]
pub struct GlTexture {
    handle: u64,
    width: usize,
    height: usize,
}

impl GlTexture {
    /// Both sides fit a signed 32-bit pixel coordinate.
    #[verifier::type_invariant]
    spec fn inv(&self) -> bool {
        self.width <= i32::MAX && self.height <= i32::MAX
    }

    pub closed spec fn spec_handle(&self) -> u64 {
        self.handle
    }

    pub closed spec fn spec_width(&self) -> usize {
        self.width
    }

    pub closed spec fn spec_height(&self) -> usize {
        self.height
    }

    /// The handle under which the texture's pixels were uploaded.
    pub fn handle(&self) -> (h: u64)
        ensures
            h == self.spec_handle(),
    {
        self.handle
    }
}

impl Dimensions for GlTexture {
    open spec fn spec_dimensions(&self) -> (nat, nat) {
        (self.spec_width() as nat, self.spec_height() as nat)
    }

    fn get_width(&self) -> usize {
        self.width
    }

    fn get_height(&self) -> usize {
        self.height
    }
}

/// One unit of GPU work, in the order the frame issues it.
///
/// Vertex positions are exact device coordinates: an x value `n` stands for
/// `n / width` and a y value for `n / height`, with the size given by the
/// latest `Viewport`. Colors are RGBA bytes, each over 255. Texture
/// coordinates are in texels: `u / texture width`, `v / texture height`.
#[derive(Debug, PartialEq, Eq)]
pub enum Command {
    /// Sets the viewport to the whole framebuffer.
    Viewport { width: u32, height: u32 },
    /// Clears the color buffer to opaque black.
    Clear,
    /// Alpha blending on, scissor test on, back-face culling off.
    EnableBlending,
    /// Restricts drawing to a rectangle with its origin at the bottom left.
    Scissor { x: i64, y: i64, width: i64, height: i64 },
    /// Turns the scissor test off.
    DisableScissor,
    /// Disables the vertex attributes of a state.
    Leave(DrawState),
    /// Activates a state's program and binds its attributes to the shared
    /// buffers; for `Unbound`, selects no program and no buffer.
    Enter(DrawState),
    /// Uploads RGBA pixels as a new texture under a fresh handle.
    CreateTexture { handle: u64, width: usize, height: usize, pixels: Vec<u8> },
    /// Releases the texture under a handle.
    DeleteTexture { handle: u64 },
    /// Uploads positions and colors and draws them as a triangle strip.
    DrawColored { vertices: Vec<i64>, colors: Vec<u8> },
    /// Uploads positions, colors and texture coordinates and draws them as a
    /// triangle list with the texture bound.
    DrawTextured { texture: u64, vertices: Vec<i64>, colors: Vec<u8>, uv: Vec<i64> },
    /// Presents the frame.
    SwapBuffers,
}

/// The mathematical content of a `Command`.
#[allow(inconsistent_fields)]
pub enum CommandView {
    Viewport { width: u32, height: u32 },
    Clear,
    EnableBlending,
    Scissor { x: int, y: int, width: int, height: int },
    DisableScissor,
    Leave(DrawState),
    Enter(DrawState),
    CreateTexture { handle: u64, width: usize, height: usize, pixels: Seq<u8> },
    DeleteTexture { handle: u64 },
    DrawColored { vertices: Seq<int>, colors: Seq<u8> },
    DrawTextured { texture: u64, vertices: Seq<int>, colors: Seq<u8>, uv: Seq<int> },
    SwapBuffers,
}

impl View for Command {
    type V = CommandView;

    open spec fn view(&self) -> CommandView {
        match self {
            Command::Viewport { width, height } => CommandView::Viewport {
                width: *width,
                height: *height,
            },
            Command::Clear => CommandView::Clear,
            Command::EnableBlending => CommandView::EnableBlending,
            Command::Scissor { x, y, width, height } => CommandView::Scissor {
                x: *x as int,
                y: *y as int,
                width: *width as int,
                height: *height as int,
            },
            Command::DisableScissor => CommandView::DisableScissor,
            Command::Leave(s) => CommandView::Leave(*s),
            Command::Enter(s) => CommandView::Enter(*s),
            Command::CreateTexture { handle, width, height, pixels } => CommandView::CreateTexture {
                handle: *handle,
                width: *width,
                height: *height,
                pixels: pixels@,
            },
            Command::DeleteTexture { handle } => CommandView::DeleteTexture { handle: *handle },
            Command::DrawColored { vertices, colors } => CommandView::DrawColored {
                vertices: ints_of(vertices@),
                colors: colors@,
            },
            Command::DrawTextured { texture, vertices, colors, uv } => CommandView::DrawTextured {
                texture: *texture,
                vertices: ints_of(vertices@),
                colors: colors@,
                uv: ints_of(uv@),
            },
            Command::SwapBuffers => CommandView::SwapBuffers,
        }
    }
}

pub open spec fn views_of(s: Seq<Command>) -> Seq<CommandView> {
    s.map_values(|c: Command| c@)
}

/// The commands that move the GPU from state `from` to state `to`.
pub open spec fn bind_cmds(from: DrawState, to: DrawState) -> Seq<CommandView> {
    if from == to {
        seq![]
    } else if from == DrawState::Unbound {
        seq![CommandView::Enter(to)]
    } else {
        seq![CommandView::Leave(from), CommandView::Enter(to)]
    }
}

/// `n` copies of a color's four channels.
pub open spec fn solid_colors(c: Color, n: nat) -> Seq<u8> {
    Seq::new(4 * n, |i: int| c.channels()[i % 4])
}

/// Texture coordinates that map a whole texture onto the vertices of
/// `spec_quad`.
pub open spec fn default_uv(width: int, height: int) -> Seq<int> {
    seq![0, 0, 0, height, width, height, 0, 0, width, 0, width, height]
}

pub open spec fn white() -> Color {
    Color { r: 255, g: 255, b: 255, a: 255 }
}

/// The rectangle a texture covers at its own size with its corner at `pos`.
pub open spec fn texture_rect(t: &GlTexture, pos: Position) -> Rect {
    Rect { x: pos.x, y: pos.y, width: t.spec_width() as i32, height: t.spec_height() as i32 }
}

/// The draw of a texture stretched over `rect` and tinted by `color`.
pub open spec fn textured_rect_cmd(d: Drawer, t: &GlTexture, rect: Rect, color: Color) -> CommandView {
    CommandView::DrawTextured {
        texture: t.spec_handle(),
        vertices: spec_quad(rect, d.spec_width() as int, d.spec_height() as int),
        colors: solid_colors(color, 6),
        uv: default_uv(t.spec_width() as int, t.spec_height() as int),
    }
}

/// `n` copies of a color's channels, as a color buffer.
fn solid_color_buffer(color: &Color, n: usize) -> (v: Vec<u8>)
    requires
        n <= 1024,
    ensures
        v@ == solid_colors(*color, n as nat),
{
    let mut v: Vec<u8> = Vec::new();
    let mut i: usize = 0;
    while i < n
        invariant
            i <= n <= 1024,
            v@ =~= solid_colors(*color, i as nat),
        decreases n - i,
    {
        v.push(color.r);
        v.push(color.g);
        v.push(color.b);
        v.push(color.a);
        i = i + 1;
        assert(v@ =~= solid_colors(*color, i as nat));
    }
    v
}

/// Texture coordinates covering a whole texture, in texels.
fn default_uv_buffer(texture: &GlTexture) -> (v: Vec<i64>)
    ensures
        ints_of(v@) == default_uv(texture.spec_width() as int, texture.spec_height() as int),
{
    proof {
        use_type_invariant(texture);
    }
    let w = texture.width as i64;
    let h = texture.height as i64;
    let v = vec![0, 0, 0, h, w, h, 0, 0, w, 0, w, h];
    assert(ints_of(v@) =~= default_uv(texture.spec_width() as int, texture.spec_height() as int));
    v
}

/// The handle counter after one upload; it stops at `u64::MAX`.
pub open spec fn next_handle_after(h: u64) -> u64 {
    if h < u64::MAX {
        (h + 1) as u64
    } else {
        h
    }
}

/// What setting RGBA8 pixels of the given size as the background does,
/// taking the drawer from `d0` to `d1`: with both sides within a signed
/// 32-bit coordinate it succeeds, uploading the first `width * height * 4`
/// bytes under the next handle, making that texture the background and then
/// releasing the earlier background; otherwise nothing changes.
pub open spec fn background_rgba_outcome(
    d0: Drawer,
    d1: Drawer,
    set: bool,
    pixels: Seq<u8>,
    width: u32,
    height: u32,
) -> bool {
    &&& set == (width <= i32::MAX && height <= i32::MAX)
    &&& set ==> {
        &&& d1.spec_background() == Some(
            (d0.spec_next_handle(), width as usize, height as usize),
        )
        &&& d1.spec_next_handle() == next_handle_after(d0.spec_next_handle())
        &&& d1.spec_width() == d0.spec_width()
        &&& d1.spec_height() == d0.spec_height()
        &&& d1.spec_machine() == d0.spec_machine()
        &&& d1.spec_commands() == d0.spec_commands().push(
            CommandView::CreateTexture {
                handle: d0.spec_next_handle(),
                width: width as usize,
                height: height as usize,
                pixels: pixels.take(width * height * 4),
            },
        ) + match d0.spec_background() {
            Some((h, _, _)) => seq![CommandView::DeleteTexture { handle: h }],
            None => seq![],
        }
    }
    &&& !set ==> d1 == d0
}

/// The draw of the background over the whole framebuffer, in white.
pub open spec fn background_cmd(d: Drawer) -> CommandView {
    let (handle, width, height) = d.spec_background()->Some_0;
    CommandView::DrawTextured {
        texture: handle,
        vertices: spec_quad(
            Rect { x: 0, y: 0, width: d.spec_width() as i32, height: d.spec_height() as i32 },
            d.spec_width() as int,
            d.spec_height() as int,
        ),
        colors: solid_colors(white(), 6),
        uv: default_uv(width as int, height as int),
    }
}

/// Records the GPU work of frames as a list of commands, keeping track of the
/// bound draw state so that a program is only rebound when a draw needs
/// another one.
pub struct Drawer {
    machine: DrawStateMachine,
    width: u32,
    height: u32,
    background: Option<GlTexture>,
    next_handle: u64,
    commands: Vec<Command>,
}

impl Drawer {
    pub closed spec fn spec_machine(&self) -> DrawStateMachine {
        self.machine
    }

    pub closed spec fn spec_width(&self) -> u32 {
        self.width
    }

    pub closed spec fn spec_height(&self) -> u32 {
        self.height
    }

    /// The handle of the background texture, if one is set.
    pub closed spec fn spec_background(&self) -> Option<(u64, usize, usize)> {
        match &self.background {
            Some(t) => Some((t.handle, t.width, t.height)),
            None => None,
        }
    }

    /// The handle the next uploaded texture gets.
    pub closed spec fn spec_next_handle(&self) -> u64 {
        self.next_handle
    }

    /// The commands recorded and not yet taken.
    pub closed spec fn spec_commands(&self) -> Seq<CommandView> {
        views_of(self.commands@)
    }

    /// A drawer for a framebuffer of the given size, with nothing recorded.
    pub fn new(width: u32, height: u32) -> (d: Self)
        ensures
            d.spec_machine() == DrawStateMachine::new_spec(),
            d.spec_width() == width,
            d.spec_height() == height,
            d.spec_background() is None,
            d.spec_next_handle() == 1,
            d.spec_commands() == Seq::<CommandView>::empty(),
    {
        let d = Drawer {
            machine: DrawStateMachine::new(),
            width,
            height,
            background: None,
            next_handle: 1,
            commands: Vec::new(),
        };
        assert(views_of(d.commands@) =~= Seq::<CommandView>::empty());
        d
    }

    fn record(&mut self, c: Command)
        ensures
            final(self).spec_commands() == old(self).spec_commands().push(c@),
            final(self).spec_machine() == old(self).spec_machine(),
            final(self).spec_width() == old(self).spec_width(),
            final(self).spec_height() == old(self).spec_height(),
            final(self).spec_background() == old(self).spec_background(),
            final(self).spec_next_handle() == old(self).spec_next_handle(),
    {
        self.commands.push(c);
        assert(views_of(self.commands@) =~= views_of(old(self).commands@).push(c@));
    }

    /// Moves to `target`, recording the rebinding if it is needed.
    fn configure_state(&mut self, target: DrawState)
        ensures
            final(self).spec_commands() == old(self).spec_commands() + bind_cmds(
                old(self).spec_machine().state,
                target,
            ),
            final(self).spec_machine() == old(self).spec_machine().step(target),
            final(self).spec_width() == old(self).spec_width(),
            final(self).spec_height() == old(self).spec_height(),
            final(self).spec_background() == old(self).spec_background(),
            final(self).spec_next_handle() == old(self).spec_next_handle(),
    {
        let t = self.machine.configure_state(target);
        let ghost before = old(self).spec_commands();
        match t {
            Some(Transition { from, to }) => {
                if from != DrawState::Unbound {
                    self.record(Command::Leave(from));
                }
                self.record(Command::Enter(to));
                assert(self.spec_commands() =~= before + bind_cmds(from, to));
            },
            None => {
                assert(self.spec_commands() =~= before + bind_cmds(target, target));
            },
        }
    }

    /// Width, height, background and handle counter are those of `other`.
    pub open spec fn same_resources(&self, other: &Self) -> bool {
        &&& self.spec_width() == other.spec_width()
        &&& self.spec_height() == other.spec_height()
        &&& self.spec_background() == other.spec_background()
        &&& self.spec_next_handle() == other.spec_next_handle()
    }

    /// Starts a frame on a framebuffer of the given size: nothing is bound,
    /// the counters are zero and the viewport covers the framebuffer.
    pub fn start(&mut self, width: u32, height: u32)
        ensures
            final(self).spec_machine() == DrawStateMachine::new_spec(),
            final(self).spec_width() == width,
            final(self).spec_height() == height,
            final(self).spec_background() == old(self).spec_background(),
            final(self).spec_next_handle() == old(self).spec_next_handle(),
            final(self).spec_commands() == old(self).spec_commands().push(
                CommandView::Viewport { width, height },
            ),
    {
        self.machine = DrawStateMachine::new();
        self.width = width;
        self.height = height;
        self.record(Command::Viewport { width, height });
    }

    /// Ends the frame: unbinds whatever is bound, then presents.
    pub fn end(&mut self)
        ensures
            final(self).same_resources(old(self)),
            final(self).spec_machine() == old(self).spec_machine().step(DrawState::Unbound),
            final(self).spec_commands() == old(self).spec_commands() + bind_cmds(
                old(self).spec_machine().state,
                DrawState::Unbound,
            ).push(CommandView::SwapBuffers),
    {
        self.configure_state(DrawState::Unbound);
        self.record(Command::SwapBuffers);
        assert(self.spec_commands() =~= old(self).spec_commands() + bind_cmds(
            old(self).spec_machine().state,
            DrawState::Unbound,
        ).push(CommandView::SwapBuffers));
    }

    /// Enables alpha blending for translucent overlays, with scissoring on
    /// and culling off. It stays on for the rest of the frame.
    pub fn enable_blending(&mut self)
        ensures
            final(self).same_resources(old(self)),
            final(self).spec_machine() == old(self).spec_machine(),
            final(self).spec_commands() == old(self).spec_commands().push(
                CommandView::EnableBlending,
            ),
    {
        self.record(Command::EnableBlending);
    }

    /// The framebuffer width in pixels.
    pub fn get_width(&self) -> (w: usize)
        ensures
            w == self.spec_width(),
    {
        self.width as usize
    }

    /// The framebuffer height in pixels.
    pub fn get_height(&self) -> (h: usize)
        ensures
            h == self.spec_height(),
    {
        self.height as usize
    }

    /// The number of state transitions so far in this frame.
    pub fn get_transition_count(&self) -> (n: usize)
        ensures
            n == self.spec_machine().transition_count,
    {
        self.machine.transition_count
    }

    /// The number of state requests so far in this frame, one per draw and
    /// one for the end of the frame.
    pub fn get_call_count(&self) -> (n: usize)
        ensures
            n == self.spec_machine().calls,
    {
        self.machine.calls
    }

    /// Hands over the commands recorded so far, leaving none.
    pub fn take_commands(&mut self) -> (c: Vec<Command>)
        ensures
            views_of(c@) == old(self).spec_commands(),
            final(self).spec_commands() == Seq::<CommandView>::empty(),
            final(self).same_resources(old(self)),
            final(self).spec_machine() == old(self).spec_machine(),
    {
        let mut c: Vec<Command> = Vec::new();
        std::mem::swap(&mut c, &mut self.commands);
        assert(views_of(self.commands@) =~= Seq::<CommandView>::empty());
        c
    }

    /// Uploads a pixel buffer as a texture under the next handle.
    pub fn convert_native_texture(&mut self, texture: Texture) -> (t: GlTexture)
        requires
            texture.wf(),
            texture.spec_width() <= i32::MAX,
            texture.spec_height() <= i32::MAX,
        ensures
            t.spec_handle() == old(self).spec_next_handle(),
            t.spec_width() == texture.spec_width(),
            t.spec_height() == texture.spec_height(),
            final(self).spec_next_handle() == next_handle_after(old(self).spec_next_handle()),
            final(self).spec_width() == old(self).spec_width(),
            final(self).spec_height() == old(self).spec_height(),
            final(self).spec_background() == old(self).spec_background(),
            final(self).spec_machine() == old(self).spec_machine(),
            final(self).spec_commands() == old(self).spec_commands().push(
                CommandView::CreateTexture {
                    handle: old(self).spec_next_handle(),
                    width: texture.spec_width() as usize,
                    height: texture.spec_height() as usize,
                    pixels: texture.spec_data(),
                },
            ),
    {
        let handle = self.next_handle;
        if self.next_handle < u64::MAX {
            self.next_handle = self.next_handle + 1;
        }
        let width = texture.get_width();
        let height = texture.get_height();
        let pixels = texture.into_data();
        self.record(Command::CreateTexture { handle, width, height, pixels });
        GlTexture { handle, width, height }
    }

    /// Releases a texture; it is consumed, so this happens once.
    pub fn release_texture(&mut self, texture: GlTexture)
        ensures
            final(self).same_resources(old(self)),
            final(self).spec_machine() == old(self).spec_machine(),
            final(self).spec_commands() == old(self).spec_commands().push(
                CommandView::DeleteTexture { handle: texture.spec_handle() },
            ),
    {
        self.record(Command::DeleteTexture { handle: texture.handle });
    }

    /// Makes a pixel buffer the background, releasing any earlier one.
    pub fn set_background_texture(&mut self, texture: Texture)
        requires
            texture.wf(),
            texture.spec_width() <= i32::MAX,
            texture.spec_height() <= i32::MAX,
        ensures
            final(self).spec_background() == Some(
                (
                    old(self).spec_next_handle(),
                    texture.spec_width() as usize,
                    texture.spec_height() as usize,
                ),
            ),
            final(self).spec_next_handle() == next_handle_after(old(self).spec_next_handle()),
            final(self).spec_width() == old(self).spec_width(),
            final(self).spec_height() == old(self).spec_height(),
            final(self).spec_machine() == old(self).spec_machine(),
            final(self).spec_commands() == old(self).spec_commands().push(
                CommandView::CreateTexture {
                    handle: old(self).spec_next_handle(),
                    width: texture.spec_width() as usize,
                    height: texture.spec_height() as usize,
                    pixels: texture.spec_data(),
                },
            ) + match old(self).spec_background() {
                Some((h, _, _)) => seq![CommandView::DeleteTexture { handle: h }],
                None => seq![],
            },
    {
        let t = self.convert_native_texture(texture);
        let ghost mid = self.spec_commands();
        let previous = self.background.take();
        match previous {
            Some(p) => {
                self.release_texture(p);
            },
            None => {},
        }
        self.background = Some(t);
        assert(self.spec_commands() =~= mid + match old(self).spec_background() {
            Some((h, _, _)) => seq![CommandView::DeleteTexture { handle: h }],
            None => seq![],
        });
    }

    /// Makes RGBA8 pixels, `width` by `height` with rows top first, the
    /// background, releasing any earlier one. Bytes past the last pixel are
    /// ignored. Returns false, and changes nothing, when a side is longer than
    /// a signed 32-bit coordinate.
    pub fn set_background_rgba(&mut self, pixels: Vec<u8>, width: u32, height: u32) -> (set: bool)
        requires
            pixels@.len() >= width * height * 4,
        ensures
            background_rgba_outcome(*old(self), *final(self), set, pixels@, width, height),
    {
        if width > i32::MAX as u32 || height > i32::MAX as u32 {
            return false;
        }
        let mut pixels = pixels;
        let len = pixels.len();
        proof {
            assert(width as int * height as int * 4 <= len);
        }
        let n: usize = width as usize * height as usize * 4;
        pixels.truncate(n);
        let texture = Texture::from_rgba(pixels, width as usize, height as usize);
        self.set_background_texture(texture);
        true
    }

    /// Makes a decoded image the background, releasing any earlier one: the
    /// image is converted to RGBA8 and handed to `set_background_rgba`.
    pub fn set_background(&mut self, image: &image::DynamicImage) -> (set: bool)
        ensures
            background_rgba_outcome(
                *old(self),
                *final(self),
                set,
                rgba8_of(*image).0,
                rgba8_of(*image).1,
                rgba8_of(*image).2,
            ),
    {
        let (pixels, width, height) = rgba8_pixels(image);
        self.set_background_rgba(pixels, width, height)
    }

    /// Clears to opaque black. When `transparent` is set and a background is
    /// present, the background is then drawn over the whole framebuffer.
    pub fn clear(&mut self, transparent: bool)
        ensures
            final(self).same_resources(old(self)),
            final(self).spec_machine() == if transparent && old(self).spec_background() is Some {
                old(self).spec_machine().step(DrawState::Textured)
            } else {
                old(self).spec_machine()
            },
            final(self).spec_commands() == old(self).spec_commands().push(CommandView::Clear)
                + if transparent && old(self).spec_background() is Some {
                bind_cmds(old(self).spec_machine().state, DrawState::Textured).push(
                    background_cmd(*old(self)),
                )
            } else {
                seq![]
            },
    {
        self.record(Command::Clear);
        let ghost mid = self.spec_commands();
        if transparent {
            let taken = self.background.take();
            match taken {
                Some(tex) => {
                    let width = (#[verifier::truncate] (self.width as i32));
                    let height = (#[verifier::truncate] (self.height as i32));
                    let size = Rect::new(0, 0, width, height);
                    self.draw_texture_sized(&tex, &size, &Color::new_3byte(255, 255, 255));
                    self.background = Some(tex);
                },
                None => {},
            }
        }
        assert(self.spec_commands() =~= old(self).spec_commands().push(CommandView::Clear)
            + if transparent && old(self).spec_background() is Some {
            bind_cmds(old(self).spec_machine().state, DrawState::Textured).push(
                background_cmd(*old(self)),
            )
        } else {
            seq![]
        });
    }

    /// Restricts drawing to a pixel rectangle. The scissor box has its
    /// origin at the bottom left, so its y is the framebuffer height less the
    /// rectangle's bottom edge.
    pub fn start_clip(&mut self, rect: &Rect)
        ensures
            final(self).same_resources(old(self)),
            final(self).spec_machine() == old(self).spec_machine(),
            final(self).spec_commands() == old(self).spec_commands().push(
                CommandView::Scissor {
                    x: rect.x as int,
                    y: old(self).spec_height() - rect.y - rect.height,
                    width: rect.width as int,
                    height: rect.height as int,
                },
            ),
    {
        let y = self.height as i64 - rect.y as i64 - rect.height as i64;
        self.record(
            Command::Scissor { x: rect.x as i64, y, width: rect.width as i64, height: rect.height as i64 },
        );
    }

    /// Lifts the restriction of `start_clip`.
    pub fn end_clip(&mut self)
        ensures
            final(self).same_resources(old(self)),
            final(self).spec_machine() == old(self).spec_machine(),
            final(self).spec_commands() == old(self).spec_commands().push(
                CommandView::DisableScissor,
            ),
    {
        self.record(Command::DisableScissor);
    }

    /// Draws flat-colored vertices as a triangle strip, two position values
    /// and four color bytes per vertex.
    pub fn draw_colored_vertices(&mut self, vertices: &Vec<i64>, colors: &Vec<u8>)
        ensures
            final(self).same_resources(old(self)),
            final(self).spec_machine() == old(self).spec_machine().step(DrawState::Colored),
            final(self).spec_commands() == old(self).spec_commands() + bind_cmds(
                old(self).spec_machine().state,
                DrawState::Colored,
            ).push(CommandView::DrawColored { vertices: ints_of(vertices@), colors: colors@ }),
    {
        self.configure_state(DrawState::Colored);
        let cmd = Command::DrawColored { vertices: vertices.clone(), colors: colors.clone() };
        self.record(cmd);
        assert(self.spec_commands() =~= old(self).spec_commands() + bind_cmds(
            old(self).spec_machine().state,
            DrawState::Colored,
        ).push(cmd@));
    }

    /// Converts a rectangle to its device-space corners for this
    /// framebuffer, without flipping the Y axis.
    pub fn rect_to_min_max(&self, rect: &Rect) -> (r: ((i64, i64), (i64, i64)))
        ensures
            (((r.0).0 as int, (r.0).1 as int), ((r.1).0 as int, (r.1).1 as int))
                == crate::geometry::spec_min_max(
                *rect,
                self.spec_width() as int,
                self.spec_height() as int,
            ),
    {
        crate::geometry::rect_to_min_max(rect, self.width, self.height)
    }

    /// Converts a rectangle to two triangles in device space for this
    /// framebuffer, Y flipped.
    pub fn rect_to_vertices(&self, rect: &Rect) -> (v: Vec<i64>)
        ensures
            ints_of(v@) == spec_quad(*rect, self.spec_width() as int, self.spec_height() as int),
            v@.len() == 12,
    {
        rect_to_vertices(rect, self.width, self.height)
    }

    /// Draws textured triangles with per-vertex colors and texture
    /// coordinates covering the whole texture.
    pub fn draw_textured_vertices_colored(
        &mut self,
        texture: &GlTexture,
        vertices: &Vec<i64>,
        colors: &Vec<u8>,
    )
        ensures
            final(self).same_resources(old(self)),
            final(self).spec_machine() == old(self).spec_machine().step(DrawState::Textured),
            final(self).spec_commands() == old(self).spec_commands() + bind_cmds(
                old(self).spec_machine().state,
                DrawState::Textured,
            ).push(
                CommandView::DrawTextured {
                    texture: texture.spec_handle(),
                    vertices: ints_of(vertices@),
                    colors: colors@,
                    uv: default_uv(texture.spec_width() as int, texture.spec_height() as int),
                },
            ),
    {
        let uv = default_uv_buffer(texture);
        self.draw_textured_vertices_colored_uv(texture, vertices, colors, &uv);
    }

    /// Draws textured triangles in white, covering the whole texture.
    pub fn draw_textured_vertices(&mut self, texture: &GlTexture, vertices: &Vec<i64>)
        ensures
            final(self).same_resources(old(self)),
            final(self).spec_machine() == old(self).spec_machine().step(DrawState::Textured),
            final(self).spec_commands() == old(self).spec_commands() + bind_cmds(
                old(self).spec_machine().state,
                DrawState::Textured,
            ).push(
                CommandView::DrawTextured {
                    texture: texture.spec_handle(),
                    vertices: ints_of(vertices@),
                    colors: solid_colors(white(), 6),
                    uv: default_uv(texture.spec_width() as int, texture.spec_height() as int),
                },
            ),
    {
        let colors = solid_color_buffer(&Color::new_4byte(255, 255, 255, 255), 6);
        self.draw_textured_vertices_colored(texture, vertices, &colors);
    }

    /// Draws a texture stretched over a rectangle, tinted by a color.
    pub fn draw_texture_sized(&mut self, texture: &GlTexture, rect: &Rect, color: &Color)
        ensures
            final(self).same_resources(old(self)),
            final(self).spec_machine() == old(self).spec_machine().step(DrawState::Textured),
            final(self).spec_commands() == old(self).spec_commands() + bind_cmds(
                old(self).spec_machine().state,
                DrawState::Textured,
            ).push(textured_rect_cmd(*old(self), texture, *rect, *color)),
    {
        let vertices = self.rect_to_vertices(rect);
        let colors = solid_color_buffer(color, 6);
        self.draw_textured_vertices_colored(texture, &vertices, &colors);
    }

    /// Draws a texture at its own size with its top-left corner at `pos`,
    /// tinted by a color.
    pub fn draw_texture_colored(&mut self, texture: &GlTexture, pos: &Position, color: &Color)
        ensures
            final(self).same_resources(old(self)),
            final(self).spec_machine() == old(self).spec_machine().step(DrawState::Textured),
            final(self).spec_commands() == old(self).spec_commands() + bind_cmds(
                old(self).spec_machine().state,
                DrawState::Textured,
            ).push(textured_rect_cmd(*old(self), texture, texture_rect(texture, *pos), *color)),
    {
        proof {
            use_type_invariant(texture);
        }
        let width = texture.width as i32;
        let height = texture.height as i32;
        let rect = Rect::new_from_pos(pos, width, height);
        self.draw_texture_sized(texture, &rect, color);
    }

    /// Draws a texture at its own size with its top-left corner at `pos`.
    pub fn draw_texture(&mut self, texture: &GlTexture, pos: &Position)
        ensures
            final(self).same_resources(old(self)),
            final(self).spec_machine() == old(self).spec_machine().step(DrawState::Textured),
            final(self).spec_commands() == old(self).spec_commands() + bind_cmds(
                old(self).spec_machine().state,
                DrawState::Textured,
            ).push(textured_rect_cmd(*old(self), texture, texture_rect(texture, *pos), white())),
    {
        self.draw_texture_colored(texture, pos, &Color::new_4byte(255, 255, 255, 255));
    }

    /// Fills a rectangle with one color.
    pub fn draw_colored_rect(&mut self, rect: &Rect, color: &Color)
        ensures
            final(self).same_resources(old(self)),
            final(self).spec_machine() == old(self).spec_machine().step(DrawState::Colored),
            final(self).spec_commands() == old(self).spec_commands() + bind_cmds(
                old(self).spec_machine().state,
                DrawState::Colored,
            ).push(
                CommandView::DrawColored {
                    vertices: spec_quad(
                        *rect,
                        old(self).spec_width() as int,
                        old(self).spec_height() as int,
                    ),
                    colors: solid_colors(*color, 6),
                },
            ),
    {
        let vertices = self.rect_to_vertices(rect);
        let colors = solid_color_buffer(color, 6);
        self.draw_colored_vertices(&vertices, &colors);
    }

    /// Draws textured triangles: positions, per-vertex colors and texture
    /// coordinates, two values per vertex for positions and coordinates and
    /// four for colors.
    pub fn draw_textured_vertices_colored_uv(
        &mut self,
        texture: &GlTexture,
        vertices: &Vec<i64>,
        colors: &Vec<u8>,
        uv: &Vec<i64>,
    )
        ensures
            final(self).same_resources(old(self)),
            final(self).spec_machine() == old(self).spec_machine().step(DrawState::Textured),
            final(self).spec_commands() == old(self).spec_commands() + bind_cmds(
                old(self).spec_machine().state,
                DrawState::Textured,
            ).push(
                CommandView::DrawTextured {
                    texture: texture.spec_handle(),
                    vertices: ints_of(vertices@),
                    colors: colors@,
                    uv: ints_of(uv@),
                },
            ),
    {
        self.configure_state(DrawState::Textured);
        let cmd = Command::DrawTextured {
            texture: texture.handle,
            vertices: vertices.clone(),
            colors: colors.clone(),
            uv: uv.clone(),
        };
        self.record(cmd);
        assert(self.spec_commands() =~= old(self).spec_commands() + bind_cmds(
            old(self).spec_machine().state,
            DrawState::Textured,
        ).push(cmd@));
    }
}

/// A frame that fills one rectangle: starting it binds nothing, the fill
/// moves from the unbound state to the colored program once and draws one
/// strip of six vertices (twelve position values, twenty-four color bytes),
/// and ending it returns to the unbound state before presenting.
pub proof fn lemma_one_rect_frame(rect: Rect, color: Color, width: u32, height: u32)
    ensures
        ({
            let drawn = DrawStateMachine::new_spec().step(DrawState::Colored);
            let ended = drawn.step(DrawState::Unbound);
            let fill = CommandView::DrawColored {
                vertices: spec_quad(rect, width as int, height as int),
                colors: solid_colors(color, 6),
            };
            &&& drawn.transition_count == 1
            &&& drawn.calls == 1
            &&& ended.transition_count == 2
            &&& ended.state == DrawState::Unbound
            &&& spec_quad(rect, width as int, height as int).len() == 12
            &&& solid_colors(color, 6).len() == 24
            &&& seq![CommandView::Viewport { width, height }] + bind_cmds(
                DrawState::Unbound,
                DrawState::Colored,
            ).push(fill) + bind_cmds(drawn.state, DrawState::Unbound).push(
                CommandView::SwapBuffers,
            ) == seq![
                CommandView::Viewport { width, height },
                CommandView::Enter(DrawState::Colored),
                fill,
                CommandView::Leave(DrawState::Colored),
                CommandView::Enter(DrawState::Unbound),
                CommandView::SwapBuffers,
            ]
        }),
{
    let drawn = DrawStateMachine::new_spec().step(DrawState::Colored);
    let fill = CommandView::DrawColored {
        vertices: spec_quad(rect, width as int, height as int),
        colors: solid_colors(color, 6),
    };
    assert(seq![CommandView::Viewport { width, height }] + bind_cmds(
        DrawState::Unbound,
        DrawState::Colored,
    ).push(fill) + bind_cmds(drawn.state, DrawState::Unbound).push(CommandView::SwapBuffers)
        =~= seq![
        CommandView::Viewport { width, height },
        CommandView::Enter(DrawState::Colored),
        fill,
        CommandView::Leave(DrawState::Colored),
        CommandView::Enter(DrawState::Unbound),
        CommandView::SwapBuffers,
    ]);
}

/// The handle counter after `n` uploads starting from `h`.
pub open spec fn handle_after(h: u64, n: nat) -> u64
    decreases n,
{
    if n == 0 {
        h
    } else {
        next_handle_after(handle_after(h, (n - 1) as nat))
    }
}

/// Uploads that start from a counter with room for all of them get pairwise
/// distinct handles: the `i`-th gets `h + i`.
pub proof fn lemma_upload_handles_distinct(h: u64, n: nat, i: nat, j: nat)
    requires
        h + n <= u64::MAX,
        i < j <= n,
    ensures
        handle_after(h, i) == h + i,
        handle_after(h, j) == h + j,
        handle_after(h, i) != handle_after(h, j),
{
    lemma_handle_after(h, i);
    lemma_handle_after(h, j);
}

proof fn lemma_handle_after(h: u64, n: nat)
    requires
        h + n <= u64::MAX,
    ensures
        handle_after(h, n) == h + n,
    decreases n,
{
    if n > 0 {
        lemma_handle_after(h, (n - 1) as nat);
    }
}

} // verus!
