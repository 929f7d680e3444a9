//! The [`Canvas`] gathers the configuration of a window, the attached state
//! and input handler, and the pixel buffer, and makes the decisions of the
//! frame loop that presents it.
//!
//! A canvas is built by chained calls, each of which consumes the canvas and
//! returns a new one. Attaching a state resets the input handler to one that
//! never reports a change, so a handler always matches the state it is given.

use vstd::prelude::*;
use crate::dpi::Scale;
use crate::image::{fits_in_memory, Image};
use crate::input::Event;
use crate::scheduler::{after_event, after_tick, renders, started, FrameScheduler, FRAME_PERIOD_NS};

verus! {

/// Information about the canvas, handed to input handlers.
pub struct CanvasInfo {
    /// The width of the canvas, in virtual pixels.
    pub width: usize,
    /// The height of the canvas, in virtual pixels.
    pub height: usize,
    /// The base title for the window.
    pub title: String,
    /// Whether the canvas renders in hidpi mode. Defaults to `false`.
    pub hidpi: bool,
    /// The DPI factor: in hidpi mode the virtual dimensions are multiplied by
    /// it to give the image resolution. One until the window is open.
    pub dpi: Scale,
    /// Whether the window title shows the time to render a frame.
    /// Defaults to `false`.
    pub show_ms: bool,
    /// Only call the render callback if there's a state change.
    /// Defaults to `false`, which renders at a fixed frame rate instead.
    pub render_on_change: bool,
}

/// An input handler: it sees each event with the canvas information and the
/// attached state, and returns true if it changed the state.
pub trait EventHandler<State> {
    /// Handle one event.
    fn handle(&mut self, info: &CanvasInfo, state: &mut State, event: &Event) -> bool;
}

/// The input handler of a canvas with none attached: it never changes the
/// state.
#[derive(Clone, Copy, Debug)]
pub struct NoInput;

impl<State> EventHandler<State> for NoInput {
    fn handle(&mut self, info: &CanvasInfo, state: &mut State, event: &Event) -> (changed: bool)
        ensures
            !changed,
            *final(state) == *old(state),
    {
        false
    }
}

/// What a tick of the frame loop did.
#[derive(Clone, Copy, Debug, PartialEq, Eq, Structural)]
pub struct Frame {
    /// Whether the render callback ran, so the image must be presented.
    pub rendered: bool,
    /// Whether the image size changed, so the surface must take the new size.
    pub resized: bool,
    /// The deadline of the next tick, in nanoseconds on the loop's clock.
    pub wait_until_ns: u64,
    /// How long to wait for that deadline; zero when the loop is behind.
    pub wait_ns: u64,
}

/// A canvas manages the state handed to the renderer and the image that is
/// presented on the screen.
pub struct Canvas<State, Handler = NoInput> {
    info: CanvasInfo,
    image: Image,
    state: State,
    event_handler: Handler,
    scheduler: FrameScheduler,
    surface_width: usize,
    surface_height: usize,
}

/// The DPI factor that a canvas uses when its window reports `window`.
pub open spec fn chosen_scale(hidpi: bool, window: Scale) -> (int, int) {
    if hidpi {
        (window.spec_num() as int, window.spec_den() as int)
    } else {
        (1, 1)
    }
}

impl<State, Handler> Canvas<State, Handler> {
    /// The canvas information.
    pub closed spec fn spec_info(&self) -> CanvasInfo {
        self.info
    }

    /// The image handed to the render callback.
    pub closed spec fn spec_image(&self) -> Image {
        self.image
    }

    /// The attached state.
    pub closed spec fn spec_state(&self) -> State {
        self.state
    }

    /// The attached input handler.
    pub closed spec fn spec_handler(&self) -> Handler {
        self.event_handler
    }

    /// The state of the frame loop.
    pub closed spec fn spec_scheduler(&self) -> FrameScheduler {
        self.scheduler
    }

    /// The size that the presentation surface was last given.
    pub closed spec fn spec_surface(&self) -> (usize, usize) {
        (self.surface_width, self.surface_height)
    }

    /// The canvas information.
    pub fn info(&self) -> (i: &CanvasInfo)
        ensures
            *i == self.spec_info(),
    {
        &self.info
    }

    /// The image that is presented.
    pub fn image(&self) -> (img: &Image)
        ensures
            *img == self.spec_image(),
    {
        &self.image
    }

    /// The attached state.
    pub fn current_state(&self) -> (s: &State)
        ensures
            *s == self.spec_state(),
    {
        &self.state
    }

    /// The state of the frame loop.
    pub fn scheduler(&self) -> (s: FrameScheduler)
        ensures
            s == self.spec_scheduler(),
    {
        self.scheduler
    }
}

impl Canvas<(), NoInput> {
    /// Create a new canvas with the given virtual window dimensions.
    pub fn new(width: usize, height: usize) -> (c: Canvas<(), NoInput>)
        requires
            fits_in_memory(width as nat, height as nat),
        ensures
            c.spec_info().width == width,
            c.spec_info().height == height,
            c.spec_info().title@ == "Canvas"@,
            !c.spec_info().hidpi,
            c.spec_info().dpi.spec_num() == 1,
            c.spec_info().dpi.spec_den() == 1,
            !c.spec_info().show_ms,
            !c.spec_info().render_on_change,
            c.spec_image().spec_width() == width,
            c.spec_image().spec_height() == height,
            c.spec_image()@ == Seq::new((width * height) as nat, |i: int| crate::color::Color { r: 0, g: 0, b: 0 }),
            c.spec_scheduler() == started(0, FRAME_PERIOD_NS, false),
            c.spec_surface() == (width, height),
    {
        Canvas {
            info: CanvasInfo {
                width,
                height,
                title: "Canvas".to_owned(),
                hidpi: false,
                dpi: Scale::one(),
                show_ms: false,
                render_on_change: false,
            },
            image: Image::new(width, height),
            state: (),
            event_handler: NoInput,
            scheduler: FrameScheduler::new(0, FRAME_PERIOD_NS, false),
            surface_width: width,
            surface_height: height,
        }
    }
}

impl<State, Handler: EventHandler<State>> Canvas<State, Handler> {
    /// Set the attached state.
    ///
    /// Attaching a new state object resets the input handler to one that
    /// never reports a change.
    pub fn state<NewState>(self, state: NewState) -> (c: Canvas<NewState, NoInput>)
        ensures
            c.spec_info() == self.spec_info(),
            c.spec_image() == self.spec_image(),
            c.spec_state() == state,
            c.spec_scheduler() == self.spec_scheduler(),
            c.spec_surface() == self.spec_surface(),
    {
        Canvas {
            info: self.info,
            image: self.image,
            state,
            event_handler: NoInput,
            scheduler: self.scheduler,
            surface_width: self.surface_width,
            surface_height: self.surface_height,
        }
    }

    /// Set the title on the canvas window.
    pub fn title(self, text: &str) -> (c: Self)
        ensures
            c.spec_info().title@ == text@,
            c.spec_info() == (CanvasInfo { title: c.spec_info().title, ..self.spec_info() }),
            c.spec_image() == self.spec_image(),
            c.spec_state() == self.spec_state(),
            c.spec_handler() == self.spec_handler(),
            c.spec_scheduler() == self.spec_scheduler(),
            c.spec_surface() == self.spec_surface(),
    {
        let mut c = self;
        c.info.title = text.to_owned();
        c
    }

    /// Toggle hidpi render. Defaults to `false`.
    ///
    /// On a hidpi monitor this makes the image larger than the dimensions
    /// that the canvas was created with.
    pub fn hidpi(self, enabled: bool) -> (c: Self)
        ensures
            c.spec_info() == (CanvasInfo { hidpi: enabled, ..self.spec_info() }),
            c.spec_image() == self.spec_image(),
            c.spec_state() == self.spec_state(),
            c.spec_handler() == self.spec_handler(),
            c.spec_scheduler() == self.spec_scheduler(),
            c.spec_surface() == self.spec_surface(),
    {
        let mut c = self;
        c.info.hidpi = enabled;
        c
    }

    /// Whether to show a frame duration in the title bar. Defaults to `false`.
    pub fn show_ms(self, enabled: bool) -> (c: Self)
        ensures
            c.spec_info() == (CanvasInfo { show_ms: enabled, ..self.spec_info() }),
            c.spec_image() == self.spec_image(),
            c.spec_state() == self.spec_state(),
            c.spec_handler() == self.spec_handler(),
            c.spec_scheduler() == self.spec_scheduler(),
            c.spec_surface() == self.spec_surface(),
    {
        let mut c = self;
        c.info.show_ms = enabled;
        c
    }

    /// Whether to render a new frame only on state changes.
    ///
    /// Defaults to `false`, which means it will render at a fixed frame rate.
    pub fn render_on_change(self, enabled: bool) -> (c: Self)
        ensures
            c.spec_info() == (CanvasInfo { render_on_change: enabled, ..self.spec_info() }),
            c.spec_image() == self.spec_image(),
            c.spec_state() == self.spec_state(),
            c.spec_handler() == self.spec_handler(),
            c.spec_scheduler() == (FrameScheduler { render_on_change: enabled, ..self.spec_scheduler() }),
            c.spec_surface() == self.spec_surface(),
    {
        let mut c = self;
        c.info.render_on_change = enabled;
        c.scheduler.render_on_change = enabled;
        c
    }

    /// Attach an input handler.
    ///
    /// The handler works on the state attached before it. It is called for
    /// each event with the canvas information, the current state, and the
    /// event.
    pub fn input<NewHandler: EventHandler<State>>(self, callback: NewHandler) -> (c: Canvas<State, NewHandler>)
        ensures
            c.spec_info() == self.spec_info(),
            c.spec_image() == self.spec_image(),
            c.spec_state() == self.spec_state(),
            c.spec_handler() == callback,
            c.spec_scheduler() == self.spec_scheduler(),
            c.spec_surface() == self.spec_surface(),
    {
        Canvas {
            info: self.info,
            image: self.image,
            state: self.state,
            event_handler: callback,
            scheduler: self.scheduler,
            surface_width: self.surface_width,
            surface_height: self.surface_height,
        }
    }
}

/// The decimal digit `d`.
pub open spec fn digit_char(d: nat) -> char {
    seq!['0', '1', '2', '3', '4', '5', '6', '7', '8', '9'][d as int]
}

/// The decimal digits of `n`, most significant first, with no leading zero.
pub open spec fn decimal(n: nat) -> Seq<char>
    decreases n,
{
    if n < 10 {
        seq![digit_char(n)]
    } else {
        decimal(n / 10).push(digit_char(n % 10))
    }
}

/// `s` preceded by as many spaces as it takes to fill `width` characters.
pub open spec fn pad_left(s: Seq<char>, width: nat) -> Seq<char> {
    if s.len() >= width {
        s
    } else {
        Seq::new((width - s.len()) as nat, |i: int| ' ') + s
    }
}

/// A window title with a frame time: the base title, ` - `, the milliseconds
/// right-aligned in three columns, and `ms`.
pub open spec fn timed_title(title: Seq<char>, ms: nat) -> Seq<char> {
    title + seq![' ', '-', ' '] + pad_left(decimal(ms), 3) + seq!['m', 's']
}

/// Relies on `format!` with the pattern `{} - {:3}ms`: the title as it is,
/// then the number in decimal, right-aligned and padded with spaces to three
/// characters, then `ms`.
#[verifier::external_body]
fn format_timed_title(title: &str, ms: u64) -> (t: String)
    ensures
        t@ == timed_title(title@, ms as nat),
{
    format!("{} - {:3}ms", title, ms)
}

impl<State, Handler: EventHandler<State>> Canvas<State, Handler> {
    /// Start the session once the window is open and reports its DPI factor
    /// `window_scale`: in hidpi mode the canvas takes that factor, else one;
    /// the image is reallocated at the logical size times the factor, rounded
    /// down; and the first tick is due at `start_ns`. Returns false, and
    /// changes nothing, when an image of that size cannot be held.
    pub fn open(&mut self, window_scale: Scale, start_ns: u64) -> (opened: bool)
        ensures
            ({
                let f = chosen_scale(old(self).spec_info().hidpi, window_scale);
                let w = old(self).spec_info().width * f.0 / f.1;
                let h = old(self).spec_info().height * f.0 / f.1;
                &&& opened <==> (w <= usize::MAX && h <= usize::MAX && fits_in_memory(w as nat, h as nat))
                &&& opened ==> {
                    &&& final(self).spec_info() == (CanvasInfo { dpi: final(self).spec_info().dpi, ..old(self).spec_info() })
                    &&& final(self).spec_info().dpi.spec_num() == f.0
                    &&& final(self).spec_info().dpi.spec_den() == f.1
                    &&& final(self).spec_image().spec_width() == w
                    &&& final(self).spec_image().spec_height() == h
                    &&& final(self).spec_image()@ == Seq::new((w * h) as nat, |i: int| crate::color::Color { r: 0, g: 0, b: 0 })
                    &&& final(self).spec_surface() == (w as usize, h as usize)
                    &&& final(self).spec_scheduler() == started(start_ns, FRAME_PERIOD_NS, old(self).spec_info().render_on_change)
                    &&& final(self).spec_state() == old(self).spec_state()
                    &&& final(self).spec_handler() == old(self).spec_handler()
                }
                &&& !opened ==> *final(self) == *old(self)
            }),
    {
        let dpi: Scale = if self.info.hidpi { window_scale } else { Scale::one() };
        let w = dpi.scale_floor(self.info.width);
        let h = dpi.scale_floor(self.info.height);
        match (w, h) {
            (Some(w), Some(h)) => {
                if Image::fits(w, h) {
                    self.info.dpi = dpi;
                    self.image = Image::new(w, h);
                    self.surface_width = w;
                    self.surface_height = h;
                    self.scheduler = FrameScheduler::new(start_ns, FRAME_PERIOD_NS, self.info.render_on_change);
                    true
                } else {
                    false
                }
            },
            _ => false,
        }
    }

    /// Handle a tick of the frame timer at time `now_ns`: advance the
    /// deadline, and if the tick renders, run `callback` on the state and the
    /// image and note whether the surface must take a new size.
    pub fn tick<F: FnMut(&mut State, &mut Image)>(&mut self, now_ns: u64, callback: &mut F) -> (frame: Frame)
        requires
            forall|s: &mut State, i: &mut Image| call_requires(*old(callback), (s, i)),
        ensures
            final(self).spec_scheduler() == after_tick(old(self).spec_scheduler()),
            frame.rendered == renders(old(self).spec_scheduler()),
            frame.wait_until_ns == final(self).spec_scheduler().next_deadline_ns,
            frame.wait_ns == if now_ns < frame.wait_until_ns {
                frame.wait_until_ns - now_ns
            } else {
                0
            },
            final(self).spec_info() == old(self).spec_info(),
            final(self).spec_handler() == old(self).spec_handler(),
            !frame.rendered ==> {
                &&& final(self).spec_image() == old(self).spec_image()
                &&& final(self).spec_state() == old(self).spec_state()
                &&& final(self).spec_surface() == old(self).spec_surface()
                &&& !frame.resized
            },
            frame.rendered ==> {
                &&& final(self).spec_surface() == (
                    final(self).spec_image().spec_width(),
                    final(self).spec_image().spec_height(),
                )
                &&& frame.resized <==> final(self).spec_surface() != old(self).spec_surface()
            },
    {
        let t = self.scheduler.tick(now_ns);
        if !t.render {
            return Frame { rendered: false, resized: false, wait_until_ns: t.wait_until_ns, wait_ns: t.wait_ns };
        }
        callback(&mut self.state, &mut self.image);
        let w: usize = self.image.width();
        let h: usize = self.image.height();
        let resized: bool = w != self.surface_width || h != self.surface_height;
        self.surface_width = w;
        self.surface_height = h;
        Frame { rendered: true, resized, wait_until_ns: t.wait_until_ns, wait_ns: t.wait_ns }
    }

    /// Route one event. A close request ends the loop. Any other event goes
    /// to the input handler, whose answer marks a change for
    /// render-on-change mode; a resize to a new size that can be held also
    /// reallocates the image at that size and marks a change. Returns whether
    /// the loop goes on.
    pub fn handle_event(&mut self, event: &Event) -> (running: bool)
        ensures
            final(self).spec_info() == old(self).spec_info(),
            final(self).spec_surface() == old(self).spec_surface(),
            *event is CloseRequested ==> {
                &&& !running
                &&& final(self).spec_scheduler() == (FrameScheduler { closed: true, ..old(self).spec_scheduler() })
                &&& final(self).spec_image() == old(self).spec_image()
                &&& final(self).spec_state() == old(self).spec_state()
                &&& final(self).spec_handler() == old(self).spec_handler()
            },
            !(*event is CloseRequested) ==> {
                let realloc = match *event {
                    Event::Resized { width, height } => {
                        &&& (width != old(self).spec_image().spec_width() || height != old(self).spec_image().spec_height())
                        &&& fits_in_memory(width as nat, height as nat)
                    },
                    _ => false,
                };
                &&& running == !old(self).spec_scheduler().closed
                &&& realloc ==> {
                    &&& final(self).spec_scheduler() == after_event(old(self).spec_scheduler(), true)
                    &&& final(self).spec_image().spec_width() == event->width
                    &&& final(self).spec_image().spec_height() == event->height
                    &&& final(self).spec_image()@ == Seq::new(
                        (event->width * event->height) as nat,
                        |i: int| crate::color::Color { r: 0, g: 0, b: 0 },
                    )
                }
                &&& !realloc ==> {
                    &&& final(self).spec_image() == old(self).spec_image()
                    &&& final(self).spec_scheduler() == (FrameScheduler {
                        pending: final(self).spec_scheduler().pending,
                        ..old(self).spec_scheduler()
                    })
                    &&& old(self).spec_scheduler().pending ==> final(self).spec_scheduler().pending
                    &&& old(self).spec_scheduler().closed ==> final(self).spec_scheduler() == old(self).spec_scheduler()
                }
            },
    {
        match event {
            Event::CloseRequested => {
                self.scheduler.close();
                false
            },
            _ => {
                let changed: bool = self.event_handler.handle(&self.info, &mut self.state, event);
                let mut realloc: bool = false;
                if let Event::Resized { width, height } = event {
                    let width: usize = *width;
                    let height: usize = *height;
                    if (width != self.image.width() || height != self.image.height()) && Image::fits(width, height) {
                        self.image = Image::new(width, height);
                        realloc = true;
                    }
                }
                self.scheduler.event(changed || realloc);
                !self.scheduler.closed
            },
        }
    }

    /// The window title after a frame that took `elapsed_ms`: the base title
    /// with the time when the canvas shows frame times, else `None`.
    pub fn frame_title(&self, elapsed_ms: u64) -> (t: Option<String>)
        ensures
            t is Some <==> self.spec_info().show_ms,
            t matches Some(s) ==> s@ == timed_title(self.spec_info().title@, elapsed_ms as nat),
    {
        if self.info.show_ms {
            Some(format_timed_title(self.info.title.as_str(), elapsed_ms))
        } else {
            None
        }
    }
}

} // verus!
