//! The `pad` module: the controller poll service and the button bitmask
//! algebra it answers queries in.
//!
//! The service keeps the decoded view of all four controller ports. Each
//! polling cycle the embedding loop reads the hardware once and hands the
//! raw per-port samples to [`Pad::scan_pads`], which decodes the
//! edge-triggered state against the previous cycle; every query between two
//! scans answers from the same cycle, so un-scanned state is stale by
//! design rather than freshly sampled.

use vstd::prelude::*;

verus! {

/// The button to be checked for the `pad` service.
///
/// Each variant names one line of the controller's wire layout; the bit
/// assignments are fixed hardware facts and must never change.
#[derive(Copy, Clone, PartialEq, Eq, Debug)]
pub enum Button {
    NoButton,
    Left,
    Right,
    Down,
    Up,
    Z,
    R,
    L,
    A,
    B,
    X,
    Y,
    Start,
}

/// The wire bit assigned to each named button: zero for `Button::NoButton`, a
/// distinct power of two for every real button.
pub open spec fn button_mask(b: Button) -> u16 {
    match b {
        Button::NoButton => 0,
        Button::Left => 1,
        Button::Right => 2,
        Button::Down => 4,
        Button::Up => 8,
        Button::Z => 16,
        Button::R => 32,
        Button::L => 64,
        Button::A => 256,
        Button::B => 512,
        Button::X => 1024,
        Button::Y => 2048,
        Button::Start => 4096,
    }
}

impl Button {
    /// The raw bitmask value of this button.
    pub fn mask(self) -> (r: u16)
        ensures
            r == button_mask(self),
    {
        match self {
            Button::NoButton => 0,
            Button::Left => 1,
            Button::Right => 2,
            Button::Down => 4,
            Button::Up => 8,
            Button::Z => 16,
            Button::R => 32,
            Button::L => 64,
            Button::A => 256,
            Button::B => 512,
            Button::X => 1024,
            Button::Y => 2048,
            Button::Start => 4096,
        }
    }
}

/// Union of two named buttons as a raw mask, for building chord queries.
pub fn button_union(a: Button, b: Button) -> (r: u16)
    ensures
        r == (button_mask(a) | button_mask(b)),
{
    a.mask() | b.mask()
}

/// Intersection of two named buttons as a raw mask.
pub fn button_intersection(a: Button, b: Button) -> (r: u16)
    ensures
        r == (button_mask(a) & button_mask(b)),
{
    a.mask() & b.mask()
}

/// Symmetric difference of two named buttons as a raw mask.
pub fn button_xor(a: Button, b: Button) -> (r: u16)
    ensures
        r == (button_mask(a) ^ button_mask(b)),
{
    a.mask() ^ b.mask()
}

/// Intersection of a raw sampled mask with one named button. A caller
/// tests chord membership explicitly, as
/// `mask_and(sampled, Button::A) == Button::A.mask()`.
pub fn mask_and(m: u16, b: Button) -> (r: u16)
    ensures
        r == (m & button_mask(b)),
{
    m & b.mask()
}

/// Exact equality of a raw sampled mask against one named button. This is
/// bitwise equality, not containment: a chorded sample with further bits
/// set compares unequal, so multi-button state never hides behind a
/// single-button test.
pub fn mask_is(m: u16, b: Button) -> (r: bool)
    ensures
        r == (m == button_mask(b)),
{
    m == b.mask()
}

/// Union then intersection recovers each operand: for distinct named
/// buttons `b1` and `b2`, `(b1 | b2) & b1 == b1` and `(b1 | b2) & b2 == b2`.
pub proof fn lemma_union_intersection_recovers(b1: Button, b2: Button)
    requires
        b1 != b2,
    ensures
        (button_mask(b1) | button_mask(b2)) & button_mask(b1) == button_mask(b1),
        (button_mask(b1) | button_mask(b2)) & button_mask(b2) == button_mask(b2),
{
    let m1: u16 = button_mask(b1);
    let m2: u16 = button_mask(b2);
    assert((m1 | m2) & m1 == m1 && (m1 | m2) & m2 == m2) by (bit_vector);
}

/// Idempotence and the identity element: for every button `b`,
/// `b & b == b` and `NoButton | b == b`.
pub proof fn lemma_idempotence_identity(b: Button)
    ensures
        button_mask(b) & button_mask(b) == button_mask(b),
        button_mask(Button::NoButton) | button_mask(b) == button_mask(b),
{
    let m: u16 = button_mask(b);
    assert(m & m == m && 0u16 | m == m) by (bit_vector);
}

/// The controller port to be read for the `pad` service.
#[derive(Copy, Clone, PartialEq, Eq, Debug)]
pub enum Controller {
    One,
    Two,
    Three,
    Four,
}

/// The native port index of each controller, 0 to 3.
pub open spec fn controller_index(c: Controller) -> u8 {
    match c {
        Controller::One => 0,
        Controller::Two => 1,
        Controller::Three => 2,
        Controller::Four => 3,
    }
}

impl Controller {
    /// The native port index of this controller, 0 to 3.
    pub fn index(self) -> (r: u8)
        ensures
            r == controller_index(self),
    {
        match self {
            Controller::One => 0,
            Controller::Two => 1,
            Controller::Three => 2,
            Controller::Four => 3,
        }
    }
}

/// One controller port's raw state as the hardware poller reports it: the
/// level-triggered button mask plus the analog axes and triggers.
#[derive(Copy, Clone, PartialEq, Eq, Debug)]
pub struct PadSample {
    /// Buttons currently pressed, as a raw wire mask.
    pub held: u16,
    /// Main stick horizontal offset, centered at 0.
    pub stick_x: i8,
    /// Main stick vertical offset, centered at 0.
    pub stick_y: i8,
    /// C-stick horizontal offset, centered at 0.
    pub sub_stick_x: i8,
    /// C-stick vertical offset, centered at 0.
    pub sub_stick_y: i8,
    /// Left analog trigger pressure, 0 when released.
    pub trigger_l: u8,
    /// Right analog trigger pressure, 0 when released.
    pub trigger_r: u8,
}

/// A released controller: no buttons pressed, centered sticks, idle
/// triggers.
pub open spec fn released_sample() -> PadSample {
    PadSample {
        held: 0,
        stick_x: 0,
        stick_y: 0,
        sub_stick_x: 0,
        sub_stick_y: 0,
        trigger_l: 0,
        trigger_r: 0,
    }
}

impl Default for PadSample {
    /// A released controller: no buttons pressed, centered sticks, idle
    /// triggers.
    fn default() -> (r: PadSample)
        ensures
            r == released_sample(),
    {
        PadSample {
            held: 0,
            stick_x: 0,
            stick_y: 0,
            sub_stick_x: 0,
            sub_stick_y: 0,
            trigger_l: 0,
            trigger_r: 0,
        }
    }
}

/// The decoded state of one controller port after a scan: the current
/// level-triggered mask, the edges against the previous cycle, and the
/// analog values of the newest sample.
#[derive(Copy, Clone, PartialEq, Eq, Debug)]
pub struct PortState {
    /// Buttons pressed in the newest sample (level-triggered).
    pub held: u16,
    /// Buttons newly pressed this cycle (edge-triggered).
    pub down: u16,
    /// Buttons newly released this cycle (edge-triggered).
    pub up: u16,
    /// Main stick horizontal offset, centered at 0.
    pub stick_x: i8,
    /// Main stick vertical offset, centered at 0.
    pub stick_y: i8,
    /// C-stick horizontal offset, centered at 0.
    pub sub_stick_x: i8,
    /// C-stick vertical offset, centered at 0.
    pub sub_stick_y: i8,
    /// Left analog trigger pressure, 0 when released.
    pub trigger_l: u8,
    /// Right analog trigger pressure, 0 when released.
    pub trigger_r: u8,
}

/// The state of a port that has never been scanned: everything released,
/// no edges pending.
pub open spec fn initial_port() -> PortState {
    PortState {
        held: 0,
        down: 0,
        up: 0,
        stick_x: 0,
        stick_y: 0,
        sub_stick_x: 0,
        sub_stick_y: 0,
        trigger_l: 0,
        trigger_r: 0,
    }
}

/// The port state produced by one scan cycle: the new sample's levels,
/// with the down and up edges decoded against the mask held in the
/// previous cycle.
pub open spec fn scanned_port(prev_held: u16, s: PadSample) -> PortState {
    PortState {
        held: s.held,
        down: s.held & !prev_held,
        up: prev_held & !s.held,
        stick_x: s.stick_x,
        stick_y: s.stick_y,
        sub_stick_x: s.sub_stick_x,
        sub_stick_y: s.sub_stick_y,
        trigger_l: s.trigger_l,
        trigger_r: s.trigger_r,
    }
}

/// Whatever was held before and whatever the hardware reports, one scan
/// leaves the edges consistent with the level: every newly pressed button
/// is held, no newly released button is held, and no button is both newly
/// pressed and newly released.
pub proof fn lemma_scan_edges_consistent(prev_held: u16, s: PadSample)
    ensures
        scanned_port(prev_held, s).down & scanned_port(prev_held, s).up == 0,
        scanned_port(prev_held, s).down & scanned_port(prev_held, s).held == scanned_port(
            prev_held,
            s,
        ).down,
        scanned_port(prev_held, s).up & scanned_port(prev_held, s).held == 0,
{
    let h: u16 = prev_held;
    let n: u16 = s.held;
    assert((n & !h) & (h & !n) == 0 && (n & !h) & n == (n & !h) && (h & !n) & n == 0)
        by (bit_vector);
}

/// Represents the pad service: the decoded view of all four controller
/// ports, advanced one cycle at a time by [`Pad::scan_pads`].
pub struct Pad {
    /// Decoded state of the first port.
    pub port_one: PortState,
    /// Decoded state of the second port.
    pub port_two: PortState,
    /// Decoded state of the third port.
    pub port_three: PortState,
    /// Decoded state of the fourth port.
    pub port_four: PortState,
    /// Handle of the registered sampling-callback slot, if any.
    pub sampling_callback: Option<u32>,
    /// Number of completed scan cycles; saturates at `u32::MAX`.
    pub scans: u32,
}

/// The decoded state the service holds for one controller.
pub open spec fn port_of(p: Pad, c: Controller) -> PortState {
    match c {
        Controller::One => p.port_one,
        Controller::Two => p.port_two,
        Controller::Three => p.port_three,
        Controller::Four => p.port_four,
    }
}

impl Pad {
    /// Initialization of the pad service: every port starts released with
    /// no edges pending, no sampling callback is registered, and no cycle
    /// has been scanned yet.
    pub fn init() -> (r: Pad)
        ensures
            r.port_one == initial_port(),
            r.port_two == initial_port(),
            r.port_three == initial_port(),
            r.port_four == initial_port(),
            r.sampling_callback is None,
            r.scans == 0,
    {
        let empty = PortState {
            held: 0,
            down: 0,
            up: 0,
            stick_x: 0,
            stick_y: 0,
            sub_stick_x: 0,
            sub_stick_y: 0,
            trigger_l: 0,
            trigger_r: 0,
        };
        Pad {
            port_one: empty,
            port_two: empty,
            port_three: empty,
            port_four: empty,
            sampling_callback: None,
            scans: 0,
        }
    }

    /// Scan all pads: feed the raw samples of one polling cycle into the
    /// service. Must be called every time before checking buttons; until
    /// the next scan, every query answers from this cycle. Returns the
    /// number of completed cycles.
    pub fn scan_pads(
        &mut self,
        one: PadSample,
        two: PadSample,
        three: PadSample,
        four: PadSample,
    ) -> (r: u32)
        ensures
            final(self).port_one == scanned_port(old(self).port_one.held, one),
            final(self).port_two == scanned_port(old(self).port_two.held, two),
            final(self).port_three == scanned_port(old(self).port_three.held, three),
            final(self).port_four == scanned_port(old(self).port_four.held, four),
            final(self).sampling_callback == old(self).sampling_callback,
            final(self).scans == if old(self).scans == u32::MAX {
                u32::MAX as int
            } else {
                old(self).scans + 1
            },
            r == final(self).scans,
    {
        self.port_one = Self::decode(self.port_one.held, one);
        self.port_two = Self::decode(self.port_two.held, two);
        self.port_three = Self::decode(self.port_three.held, three);
        self.port_four = Self::decode(self.port_four.held, four);
        if self.scans < u32::MAX {
            self.scans = self.scans + 1;
        }
        self.scans
    }

    /// Decodes one port's new sample against the previously held mask.
    fn decode(prev_held: u16, s: PadSample) -> (r: PortState)
        ensures
            r == scanned_port(prev_held, s),
    {
        PortState {
            held: s.held,
            down: s.held & !prev_held,
            up: prev_held & !s.held,
            stick_x: s.stick_x,
            stick_y: s.stick_y,
            sub_stick_x: s.sub_stick_x,
            sub_stick_y: s.sub_stick_y,
            trigger_l: s.trigger_l,
            trigger_r: s.trigger_r,
        }
    }

    /// The decoded state of one controller's port in the current cycle.
    pub fn port(&self, controller: Controller) -> (r: PortState)
        ensures
            r == port_of(*self, controller),
    {
        match controller {
            Controller::One => self.port_one,
            Controller::Two => self.port_two,
            Controller::Three => self.port_three,
            Controller::Four => self.port_four,
        }
    }

    /// Buttons newly pressed in the current cycle, as a raw mask.
    pub fn buttons_down(&self, controller: Controller) -> (r: u16)
        ensures
            r == port_of(*self, controller).down,
    {
        self.port(controller).down
    }

    /// Buttons currently pressed in the current cycle, as a raw mask.
    pub fn buttons_held(&self, controller: Controller) -> (r: u16)
        ensures
            r == port_of(*self, controller).held,
    {
        self.port(controller).held
    }

    /// Buttons newly released in the current cycle, as a raw mask.
    pub fn buttons_up(&self, controller: Controller) -> (r: u16)
        ensures
            r == port_of(*self, controller).up,
    {
        self.port(controller).up
    }

    /// Main stick horizontal offset in the current cycle.
    pub fn stick_x(&self, controller: Controller) -> (r: i8)
        ensures
            r == port_of(*self, controller).stick_x,
    {
        self.port(controller).stick_x
    }

    /// Main stick vertical offset in the current cycle.
    pub fn stick_y(&self, controller: Controller) -> (r: i8)
        ensures
            r == port_of(*self, controller).stick_y,
    {
        self.port(controller).stick_y
    }

    /// C-stick horizontal offset in the current cycle.
    pub fn sub_stick_x(&self, controller: Controller) -> (r: i8)
        ensures
            r == port_of(*self, controller).sub_stick_x,
    {
        self.port(controller).sub_stick_x
    }

    /// C-stick vertical offset in the current cycle.
    pub fn sub_stick_y(&self, controller: Controller) -> (r: i8)
        ensures
            r == port_of(*self, controller).sub_stick_y,
    {
        self.port(controller).sub_stick_y
    }

    /// Left trigger pressure in the current cycle.
    pub fn trigger_l(&self, controller: Controller) -> (r: u8)
        ensures
            r == port_of(*self, controller).trigger_l,
    {
        self.port(controller).trigger_l
    }

    /// Right trigger pressure in the current cycle.
    pub fn trigger_r(&self, controller: Controller) -> (r: u8)
        ensures
            r == port_of(*self, controller).trigger_r,
    {
        self.port(controller).trigger_r
    }

    /// Registers a sampling-callback slot handle. Only one callback is
    /// registered at a time: a new registration silently replaces the
    /// previous one. The decoded port state is untouched.
    pub fn set_sampling_callback(&mut self, handle: u32)
        ensures
            final(self).sampling_callback == Some(handle),
            final(self).port_one == old(self).port_one,
            final(self).port_two == old(self).port_two,
            final(self).port_three == old(self).port_three,
            final(self).port_four == old(self).port_four,
            final(self).scans == old(self).scans,
    {
        self.sampling_callback = Some(handle);
    }
}

} // verus!
