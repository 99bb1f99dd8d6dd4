//! The matrix controller: it owns the frame buffer and the coordinate map,
//! and keeps the lifecycle of the render loop that streams frames to the
//! strip driver. The render loop itself runs on a thread of the host; it
//! reports to the controller through the methods below.
use vstd::prelude::*;
use crate::matrix_map::{is_grid, MatrixMap, MatrixMapBuilder, Wiring, lemma_table_is_bijection};

verus! {

/// One pixel: three color channels and one intensity channel.
pub type Color = [u8; 4];

/// A frame: `height` rows of `width` colors.
pub type MatrixState = Vec<Vec<Color>>;

/// The color of a dark pixel.
pub open spec fn dark() -> Color {
    [0u8, 0u8, 0u8, 0u8]
}

/// Where the render loop stands.
///
/// The loop is alive while `Running` or `Stopping`, and is asked to go on
/// while `Starting` or `Running`.
pub enum Lifecycle {
    /// No render loop was ever started.
    NotStarted,
    /// A render loop was asked for and has not yet got its strip driver.
    Starting,
    /// The render loop is streaming frames.
    Running,
    /// The render loop was asked to stop and has not yet exited.
    Stopping,
    /// The render loop has exited, or never got its strip driver.
    Stopped,
}

impl Lifecycle {
    pub open spec fn alive(self) -> bool {
        self is Running || self is Stopping
    }

    pub open spec fn continuing(self) -> bool {
        self is Starting || self is Running
    }
}

/// Why a frame was refused.
#[derive(Debug, PartialEq, Eq, Structural)]
pub enum UpdateError {
    /// The render loop is not alive: frames are refused, not queued.
    NotRunning,
    /// The frame is not `height` rows of `width` colors.
    WrongDimensions,
}

/// Why a stop request failed.
#[derive(Debug, PartialEq, Eq, Structural)]
pub enum StopError {
    /// No render loop is alive.
    NothingToStop,
}

/// The frame of `w` by `h` pixels, all dark.
pub open spec fn dark_frame(w: nat, h: nat) -> Seq<Seq<Color>> {
    Seq::new(h, |y: int| Seq::new(w, |x: int| dark()))
}

/// `map` sends the cells of a `w` by `h` matrix one to one onto `[0, w * h)`.
pub open spec fn is_strip_permutation(map: Seq<Seq<usize>>, w: int, h: int) -> bool {
    &&& is_grid(map, w, h)
    &&& forall|x: int, y: int| 0 <= x < w && 0 <= y < h ==> #[trigger] map[y][x] < w * h
    &&& forall|x1: int, y1: int, x2: int, y2: int|
        0 <= x1 < w && 0 <= y1 < h && 0 <= x2 < w && 0 <= y2 < h && #[trigger] map[y1][x1]
            == #[trigger] map[y2][x2] ==> x1 == x2 && y1 == y2
}

/// What the controller holds, as plain values.
pub struct ControllerView {
    pub width: nat,
    pub height: nat,
    pub frame: Seq<Seq<Color>>,
    pub map: Seq<Seq<usize>>,
    pub wiring: Wiring,
    pub lifecycle: Lifecycle,
    pub brightness: u8,
    pub gpio_pin: u16,
    pub dma_channel: u16,
    pub signal_frequency: u32,
}

/// Manages the frame buffer and the lifecycle of the render loop.
pub struct MatrixController {
    matrix_dimensions: (usize, usize),
    matrix_state: MatrixState,
    matrix_map: MatrixMap,
    wiring: Ghost<Wiring>,
    lifecycle: Lifecycle,
    brightness: u8,
    gpio_pin: u16,
    dma_channel: u16,
    signal_frequency: u32,
}

impl View for MatrixController {
    type V = ControllerView;

    closed spec fn view(&self) -> ControllerView {
        ControllerView {
            width: self.matrix_dimensions.0 as nat,
            height: self.matrix_dimensions.1 as nat,
            frame: frame_view(self.matrix_state@),
            map: self.matrix_map@,
            wiring: self.wiring@,
            lifecycle: self.lifecycle,
            brightness: self.brightness,
            gpio_pin: self.gpio_pin,
            dma_channel: self.dma_channel,
            signal_frequency: self.signal_frequency,
        }
    }
}

impl ControllerView {
    /// The frame fits the matrix, and the map is the table of the wiring,
    /// a permutation of the strip.
    pub open spec fn wf(self) -> bool {
        &&& self.width * self.height <= usize::MAX
        &&& is_grid(self.frame, self.width as int, self.height as int)
        &&& is_strip_permutation(self.map, self.width as int, self.height as int)
        &&& self.wiring.width == self.width
        &&& self.wiring.height == self.height
        &&& forall|x: int, y: int|
            0 <= x < self.width && 0 <= y < self.height ==> #[trigger] self.map[y][x] == self.wiring.table()[y][x]
    }
}

/// The colors of a frame, row by row.
pub open spec fn frame_view(m: Seq<Vec<Color>>) -> Seq<Seq<Color>> {
    m.map_values(|row: Vec<Color>| row@)
}

impl MatrixController {
    #[verifier::type_invariant]
    spec fn inv(&self) -> bool {
        self@.wf()
    }

    /// A controller for a matrix of `matrix_dimensions` (width, height): all
    /// pixels dark, the map built from the wiring options, no render loop.
    pub fn new(
        matrix_dimensions: (usize, usize),
        serpentine: bool,
        mirror_horizontal: bool,
        mirror_vertical: bool,
        vertical: bool,
        brightness: u8,
        gpio_pin: u16,
        dma_channel: u16,
        signal_frequency: u32,
    ) -> (r: Self)
        requires
            matrix_dimensions.0 * matrix_dimensions.1 <= usize::MAX,
        ensures
            r@.wf(),
            r@.width == matrix_dimensions.0,
            r@.height == matrix_dimensions.1,
            r@.frame == dark_frame(matrix_dimensions.0 as nat, matrix_dimensions.1 as nat),
            r@.wiring == (Wiring {
                width: matrix_dimensions.0 as nat,
                height: matrix_dimensions.1 as nat,
                serpentine,
                vertical,
                mirror_horizontal,
                mirror_vertical,
            }),
            r@.lifecycle == Lifecycle::NotStarted,
            r@.brightness == brightness,
            r@.gpio_pin == gpio_pin,
            r@.dma_channel == dma_channel,
            r@.signal_frequency == signal_frequency,
    {
        let (width, height) = matrix_dimensions;
        let mut builder = MatrixMapBuilder::new(width, height);
        if serpentine {
            builder = builder.serpentine();
        }
        if vertical {
            builder = builder.vertical();
        }
        if mirror_horizontal {
            builder = builder.mirror_horizontally();
        }
        if mirror_vertical {
            builder = builder.mirror_vertically();
        }
        let matrix_map = builder.build();
        proof {
            lemma_table_is_bijection(builder@);
        }
        let matrix_state = dark_rows(width, height);
        MatrixController {
            matrix_dimensions,
            matrix_state,
            matrix_map,
            wiring: Ghost(builder@),
            lifecycle: Lifecycle::NotStarted,
            brightness,
            gpio_pin,
            dma_channel,
            signal_frequency,
        }
    }

    /// Ask for a render loop. Returns true when the caller must now start
    /// one (on a thread of its own); false when one is alive or starting
    /// already, which leaves everything as it is.
    pub fn start(&mut self) -> (spawn: bool)
        ensures
            spawn == !(old(self)@.lifecycle.alive() || old(self)@.lifecycle is Starting),
            final(self)@ == (if spawn {
                ControllerView { lifecycle: Lifecycle::Starting, ..old(self)@ }
            } else {
                old(self)@
            }),
    {
        proof {
            use_type_invariant(&*self);
        }
        match self.lifecycle {
            Lifecycle::Running | Lifecycle::Stopping | Lifecycle::Starting => false,
            _ => {
                self.lifecycle = Lifecycle::Starting;
                true
            },
        }
    }

    /// The render loop got its strip driver: from now on it is alive.
    pub fn driver_ready(&mut self)
        ensures
            final(self)@ == (if old(self)@.lifecycle is Starting {
                ControllerView { lifecycle: Lifecycle::Running, ..old(self)@ }
            } else {
                old(self)@
            }),
    {
        proof {
            use_type_invariant(&*self);
        }
        if let Lifecycle::Starting = self.lifecycle {
            self.lifecycle = Lifecycle::Running;
        }
    }

    /// The render loop could not get its strip driver: it exits without
    /// ever having been alive.
    pub fn driver_failed(&mut self)
        ensures
            final(self)@ == (if old(self)@.lifecycle is Starting {
                ControllerView { lifecycle: Lifecycle::Stopped, ..old(self)@ }
            } else {
                old(self)@
            }),
    {
        proof {
            use_type_invariant(&*self);
        }
        if let Lifecycle::Starting = self.lifecycle {
            self.lifecycle = Lifecycle::Stopped;
        }
    }

    /// Ask the render loop to stop. Fails, changing nothing, when no loop is
    /// alive; otherwise the loop is told to stop, and the caller waits until
    /// `is_alive` turns false.
    pub fn stop(&mut self) -> (r: Result<(), StopError>)
        ensures
            r is Err <==> !old(self)@.lifecycle.alive(),
            r is Err ==> r == Err::<(), StopError>(StopError::NothingToStop) && final(self)@ == old(self)@,
            r is Ok ==> final(self)@ == (ControllerView { lifecycle: Lifecycle::Stopping, ..old(self)@ }),
    {
        proof {
            use_type_invariant(&*self);
        }
        match self.lifecycle {
            Lifecycle::Running | Lifecycle::Stopping => {
                self.lifecycle = Lifecycle::Stopping;
                Ok(())
            },
            _ => Err(StopError::NothingToStop),
        }
    }

    /// Replace the frame. Refused when no render loop is alive, or when the
    /// frame is not `height` rows of `width` colors; then nothing changes.
    pub fn update(&mut self, new_state: MatrixState) -> (r: Result<(), UpdateError>)
        ensures
            !old(self)@.lifecycle.alive() ==> r == Err::<(), UpdateError>(UpdateError::NotRunning),
            old(self)@.lifecycle.alive() && !is_grid(
                frame_view(new_state@),
                old(self)@.width as int,
                old(self)@.height as int,
            ) ==> r == Err::<(), UpdateError>(UpdateError::WrongDimensions),
            r is Ok <==> old(self)@.lifecycle.alive() && is_grid(
                frame_view(new_state@),
                old(self)@.width as int,
                old(self)@.height as int,
            ),
            r is Ok ==> final(self)@ == (ControllerView { frame: frame_view(new_state@), ..old(self)@ }),
            r is Err ==> final(self)@ == old(self)@,
    {
        proof {
            use_type_invariant(&*self);
        }
        match self.lifecycle {
            Lifecycle::Running | Lifecycle::Stopping => {},
            _ => {
                return Err(UpdateError::NotRunning);
            },
        }
        let (width, height) = self.matrix_dimensions;
        if new_state.len() != height {
            return Err(UpdateError::WrongDimensions);
        }
        let mut y: usize = 0;
        while y < height
            invariant
                y <= height,
                old(self)@.lifecycle.alive(),
                width == old(self)@.width,
                height == old(self)@.height,
                new_state@.len() == height,
                forall|j: int| 0 <= j < y ==> #[trigger] new_state@[j]@.len() == width,
            decreases height - y,
        {
            if new_state[y].len() != width {
                proof {
                    assert(frame_view(new_state@)[y as int].len() != width);
                }
                return Err(UpdateError::WrongDimensions);
            }
            y = y + 1;
        }
        proof {
            assert forall|j: int| 0 <= j < height implies #[trigger] frame_view(new_state@)[j].len() == width by {
                assert(frame_view(new_state@)[j] == new_state@[j]@);
            }
        }
        self.matrix_state = new_state;
        Ok(())
    }

    /// The pixels of the strip for the current frame: strip index
    /// `map[y][x]` gets the color of cell `(x, y)`, and each strip index
    /// shows the cell that the wiring puts there.
    pub fn strip_pixels(&self) -> (r: Vec<Color>)
        ensures
            r@.len() == self@.width * self@.height,
            forall|x: int, y: int|
                0 <= x < self@.width && 0 <= y < self@.height ==> r@[#[trigger] self@.map[y][x] as int]
                    == self@.frame[y][x],
            forall|i: int|
                0 <= i < self@.width * self@.height ==> {
                    let (x, y) = #[trigger] self@.wiring.cell_of(i);
                    r@[i] == self@.frame[y][x]
                },
    {
        proof {
            use_type_invariant(self);
        }
        let (width, height) = self.matrix_dimensions;
        let ghost v = self@;
        let mut pixels: Vec<Color> = Vec::new();
        let n: usize = width * height;
        let mut i: usize = 0;
        while i < n
            invariant
                i <= n,
                pixels@.len() == i,
            decreases n - i,
        {
            pixels.push([0u8, 0u8, 0u8, 0u8]);
            i = i + 1;
        }
        let mut y: usize = 0;
        while y < height
            invariant
                v == self@,
                v.wf(),
                width == v.width,
                height == v.height,
                y <= height,
                pixels@.len() == width * height,
                forall|i: int, j: int|
                    0 <= i < width && 0 <= j < y ==> pixels@[#[trigger] v.map[j][i] as int] == v.frame[j][i],
            decreases height - y,
        {
            let mut x: usize = 0;
            while x < width
                invariant
                    v == self@,
                    v.wf(),
                    width == v.width,
                    height == v.height,
                    y < height,
                    x <= width,
                    pixels@.len() == width * height,
                    forall|i: int, j: int|
                        0 <= i < width && 0 <= j < y ==> pixels@[#[trigger] v.map[j][i] as int] == v.frame[j][i],
                    forall|i: int| 0 <= i < x ==> pixels@[#[trigger] v.map[y as int][i] as int] == v.frame[y as int][i],
                decreases width - x,
            {
                proof {
                    assert(self.matrix_state@[y as int]@ == v.frame[y as int]);
                }
                let index = self.matrix_map.get(x, y);
                let color = self.matrix_state[y][x];
                pixels.set(index, color);
                x = x + 1;
            }
            y = y + 1;
        }
        proof {
            lemma_table_is_bijection(v.wiring);
            assert forall|i: int| 0 <= i < width * height implies {
                let (x, y) = #[trigger] v.wiring.cell_of(i);
                pixels@[i] == v.frame[y][x]
            } by {
                let (x, y) = v.wiring.cell_of(i);
                assert(v.map[y][x] == i);
            }
        }
        pixels
    }

    /// Whether the render loop goes on after a frame: not when rendering
    /// failed, nor when it was asked to stop.
    pub fn frame_rendered(&self, rendered: bool) -> (go_on: bool)
        ensures
            go_on == (rendered && self@.lifecycle.continuing()),
    {
        rendered && match self.lifecycle {
            Lifecycle::Starting | Lifecycle::Running => true,
            _ => false,
        }
    }

    /// The render loop is leaving: the frame is cleared, all dark.
    pub fn clear(&mut self)
        ensures
            final(self)@ == (ControllerView {
                frame: dark_frame(old(self)@.width, old(self)@.height),
                ..old(self)@
            }),
    {
        proof {
            use_type_invariant(&*self);
        }
        let (width, height) = self.matrix_dimensions;
        self.matrix_state = dark_rows(width, height);
        proof {
            assert(self@.frame =~~= dark_frame(old(self)@.width, old(self)@.height));
        }
    }

    /// The render loop has exited: it is no longer alive.
    pub fn render_loop_exited(&mut self)
        ensures
            final(self)@ == (ControllerView { lifecycle: Lifecycle::Stopped, ..old(self)@ }),
    {
        proof {
            use_type_invariant(&*self);
        }
        self.lifecycle = Lifecycle::Stopped;
    }

    /// True while the render loop is alive.
    pub fn is_alive(&self) -> (r: bool)
        ensures
            r == self@.lifecycle.alive(),
    {
        match self.lifecycle {
            Lifecycle::Running | Lifecycle::Stopping => true,
            _ => false,
        }
    }

    /// The size of the matrix, as (width, height).
    pub fn dimensions(&self) -> (r: (usize, usize))
        ensures
            r.0 == self@.width,
            r.1 == self@.height,
    {
        self.matrix_dimensions
    }

    pub fn brightness(&self) -> (r: u8)
        ensures
            r == self@.brightness,
    {
        self.brightness
    }

    pub fn gpio_pin(&self) -> (r: u16)
        ensures
            r == self@.gpio_pin,
    {
        self.gpio_pin
    }

    pub fn dma_channel(&self) -> (r: u16)
        ensures
            r == self@.dma_channel,
    {
        self.dma_channel
    }

    pub fn signal_frequency(&self) -> (r: u32)
        ensures
            r == self@.signal_frequency,
    {
        self.signal_frequency
    }
}

/// `height` rows of `width` dark pixels.
fn dark_rows(width: usize, height: usize) -> (r: MatrixState)
    ensures
        frame_view(r@) =~~= dark_frame(width as nat, height as nat),
{
    let mut rows: MatrixState = Vec::new();
    let mut y: usize = 0;
    while y < height
        invariant
            y <= height,
            rows@.len() == y,
            forall|j: int| 0 <= j < y ==> #[trigger] rows@[j]@ =~= Seq::new(width as nat, |x: int| dark()),
        decreases height - y,
    {
        let mut row: Vec<Color> = Vec::new();
        let mut x: usize = 0;
        while x < width
            invariant
                x <= width,
                row@.len() == x,
                forall|i: int| 0 <= i < x ==> #[trigger] row@[i] == dark(),
            decreases width - x,
        {
            row.push([0u8, 0u8, 0u8, 0u8]);
            x = x + 1;
        }
        rows.push(row);
        y = y + 1;
    }
    rows
}

} // verus!
