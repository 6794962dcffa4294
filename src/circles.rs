//! The circle drawer's canvas: circles on a plane, hit-testing, selection,
//! creation by clicking, and radius editing.
//!
//! Positions are whole canvas units and radii whole units, so every
//! geometric test is exact: a point lies inside a circle when its squared
//! distance from the centre is below the squared radius.
use vstd::prelude::*;

verus! {

/// Radius given to a newly created circle.
pub const RADIUS: u32 = 25;

/// Smallest radius a circle can have.
pub const MIN_RADIUS: u32 = 5;

/// Largest radius a circle can have.
pub const MAX_RADIUS: u32 = 100;

/// A position on the canvas.
#[derive(Clone, Copy, PartialEq, Eq, Debug)]
pub struct Point {
    pub x: i32,
    pub y: i32,
}

impl Point {
    pub fn new(x: i32, y: i32) -> (r: Point)
        ensures
            r == (Point { x, y }),
    {
        Point { x, y }
    }
}

/// Squared Euclidean distance between two points.
pub open spec fn dist2(a: Point, b: Point) -> int {
    (a.x - b.x) * (a.x - b.x) + (a.y - b.y) * (a.y - b.y)
}

/// Computes `dist2(a, b)` exactly.
pub fn distance_squared(a: Point, b: Point) -> (r: u128)
    ensures
        r == dist2(a, b),
{
    let dx: i128 = a.x as i128 - b.x as i128;
    let dy: i128 = a.y as i128 - b.y as i128;
    assert(0 <= dx * dx <= 0x1_0000_0000_0000_0000) by (nonlinear_arith)
        requires
            -0x1_0000_0000 <= dx <= 0x1_0000_0000,
    ;
    assert(0 <= dy * dy <= 0x1_0000_0000_0000_0000) by (nonlinear_arith)
        requires
            -0x1_0000_0000 <= dy <= 0x1_0000_0000,
    ;
    (dx * dx + dy * dy) as u128
}

/// A circle on the canvas. `index` is its ordinal of creation.
#[derive(Clone, Copy, PartialEq, Eq, Debug)]
pub struct Circle {
    pub pos: Point,
    pub index: usize,
    pub radius: u32,
}

impl Circle {
    /// Whether `p` lies strictly inside the circle.
    pub open spec fn contains(self, p: Point) -> bool {
        dist2(self.pos, p) < self.radius * self.radius
    }

    /// A circle at `pos` with the default radius.
    pub fn new(pos: Point, index: usize) -> (r: Circle)
        ensures
            r == (Circle { pos, index, radius: RADIUS }),
    {
        Circle { pos, index, radius: RADIUS }
    }
}

/// `r` brought into `[MIN_RADIUS, MAX_RADIUS]`.
pub open spec fn clamp_radius(r: int) -> int {
    if r < MIN_RADIUS {
        MIN_RADIUS as int
    } else if r > MAX_RADIUS {
        MAX_RADIUS as int
    } else {
        r
    }
}

fn clamped_radius(r: u32) -> (c: u32)
    ensures
        c == clamp_radius(r as int),
{
    if r < MIN_RADIUS {
        MIN_RADIUS
    } else if r > MAX_RADIUS {
        MAX_RADIUS
    } else {
        r
    }
}

/// Among the first `n` circles of `s`, the one that contains `p` with the
/// nearest centre; of several at the same distance, the first.
pub open spec fn nearest_upto(s: Seq<Circle>, p: Point, n: nat) -> Option<int>
    decreases n,
{
    if n == 0 {
        None
    } else {
        let prev = nearest_upto(s, p, (n - 1) as nat);
        let c = s[n - 1];
        if c.contains(p) && (prev is None || dist2(s[prev->0].pos, p) > dist2(c.pos, p)) {
            Some(n - 1)
        } else {
            prev
        }
    }
}

/// The circle of `s` that a click at `p` hits, if any.
pub open spec fn nearest(s: Seq<Circle>, p: Point) -> Option<int> {
    nearest_upto(s, p, s.len())
}

/// What the canvas holds, as mathematical values.
pub ghost struct CanvasView {
    pub circles: Seq<Circle>,
    pub selected: Option<usize>,
    pub enabled: bool,
}

impl CanvasView {
    /// Each circle's index is its position, radii stay in bounds, and a
    /// selection names an existing circle.
    pub open spec fn wf(self) -> bool {
        &&& forall|k: int|
            0 <= k < self.circles.len() ==> (#[trigger] self.circles[k]).index == k
                && MIN_RADIUS <= self.circles[k].radius <= MAX_RADIUS
        &&& self.selected matches Some(i) ==> i < self.circles.len()
    }

    /// The empty, enabled canvas.
    pub open spec fn empty() -> CanvasView {
        CanvasView { circles: Seq::empty(), selected: None, enabled: true }
    }

    /// A left click at `p`: a hit circle toggles its selection; a miss
    /// clears the selection and adds a circle at `p`.
    pub open spec fn click(self, p: Point) -> CanvasView {
        match nearest(self.circles, p) {
            Some(i) => CanvasView {
                selected: if self.selected == Some(i as usize) {
                    None
                } else {
                    Some(i as usize)
                },
                ..self
            },
            None => CanvasView {
                circles: self.circles.push(
                    Circle { pos: p, index: self.circles.len() as usize, radius: RADIUS },
                ),
                selected: None,
                ..self
            },
        }
    }

    /// The selected circle, if any, takes radius `clamp_radius(r)`.
    pub open spec fn set_selected_radius(self, r: int) -> CanvasView {
        match self.selected {
            Some(i) => CanvasView {
                circles: self.circles.update(
                    i as int,
                    Circle { radius: clamp_radius(r) as u32, ..self.circles[i as int] },
                ),
                ..self
            },
            None => self,
        }
    }

    /// The canvas after `event`. A disabled canvas ignores every event.
    pub open spec fn after(self, event: CanvasEvent) -> CanvasView {
        if !self.enabled {
            self
        } else {
            match event {
                CanvasEvent::MouseDown { button: MouseButton::Left, pos } => self.click(pos),
                CanvasEvent::KeyDown { key: Key::Escape } => CanvasView { selected: None, ..self },
                _ => self,
            }
        }
    }

    /// What the canvas asks of its host after `event`.
    pub open spec fn action(self, event: CanvasEvent) -> CanvasAction {
        if !self.enabled {
            CanvasAction::Nothing
        } else {
            match event {
                CanvasEvent::MouseDown { button: MouseButton::Left, .. } => CanvasAction::Repaint,
                CanvasEvent::MouseDown { button: MouseButton::Right, pos } => CanvasAction::ContextMenu(
                    pos,
                ),
                _ => CanvasAction::Nothing,
            }
        }
    }
}

/// The circles drawn so far, the selection, and whether the canvas takes input.
#[derive(Clone, PartialEq, Debug)]
pub struct CanvasData {
    pub circles: Vec<Circle>,
    pub selected: Option<usize>,
    pub enabled: bool,
}

impl View for CanvasData {
    type V = CanvasView;

    open spec fn view(&self) -> CanvasView {
        CanvasView { circles: self.circles@, selected: self.selected, enabled: self.enabled }
    }
}

impl CanvasData {
    /// An empty canvas that takes input.
    pub fn new() -> (r: CanvasData)
        ensures
            r@ == CanvasView::empty(),
            r@.wf(),
    {
        CanvasData { circles: Vec::new(), selected: None, enabled: true }
    }

    /// Appends a circle at `pos` whose index is the number of circles before it.
    pub fn add_circle(&mut self, pos: Point)
        ensures
            final(self)@ == (CanvasView {
                circles: old(self)@.circles.push(
                    Circle { pos, index: old(self)@.circles.len() as usize, radius: RADIUS },
                ),
                ..old(self)@
            }),
    {
        let v_len = self.circles.len();
        self.circles.push(Circle::new(pos, v_len));
    }

    /// The index of the circle that a click at `p` hits: of those that
    /// contain `p`, the one with the nearest centre, the first on a tie.
    pub fn hit_test(&self, p: Point) -> (r: Option<usize>)
        ensures
            match r {
                Some(i) => nearest(self@.circles, p) == Some(i as int),
                None => nearest(self@.circles, p) is None,
            },
    {
        let mut found: Option<(usize, u128)> = None;
        let mut k: usize = 0;
        while k < self.circles.len()
            invariant
                k <= self.circles.len(),
                match found {
                    Some((j, d)) => nearest_upto(self@.circles, p, k as nat) == Some(j as int)
                        && j < k && d == dist2(self@.circles[j as int].pos, p),
                    None => nearest_upto(self@.circles, p, k as nat) is None,
                },
            decreases self.circles.len() - k,
        {
            let c = self.circles[k];
            let d = distance_squared(c.pos, p);
            let rad: u128 = c.radius as u128;
            assert(rad * rad <= 0x1_0000_0000_0000_0000) by (nonlinear_arith)
                requires
                    rad <= 0xffff_ffff,
            ;
            let r2: u128 = rad * rad;
            if d < r2 {
                let closer = match found {
                    None => true,
                    Some((_, best)) => best > d,
                };
                if closer {
                    found = Some((k, d));
                }
            }
            k = k + 1;
        }
        match found {
            Some((j, _)) => Some(j),
            None => None,
        }
    }

    /// A left click at `p` (see `CanvasView::click`).
    pub fn click(&mut self, p: Point)
        requires
            old(self)@.wf(),
        ensures
            final(self)@ == old(self)@.click(p),
            final(self)@.wf(),
    {
        match self.hit_test(p) {
            Some(index) => {
                let again = match self.selected {
                    Some(s) => s == index,
                    None => false,
                };
                if again {
                    self.selected = None;
                } else {
                    self.selected = Some(index);
                }
            },
            None => {
                let n = self.circles.len();
                self.selected = None;
                self.add_circle(p);
                assert(self@.circles[n as int].index == n);
                assert(forall|k: int|
                    0 <= k < old(self)@.circles.len() ==> self@.circles[k] == old(
                        self,
                    )@.circles[k]);
            },
        }
        proof {
            lemma_nearest_upto(old(self)@.circles, p, old(self)@.circles.len());
        }
    }

    /// Clears the selection; the circles stay.
    pub fn deselect(&mut self)
        ensures
            final(self)@ == (CanvasView { selected: None, ..old(self)@ }),
    {
        self.selected = None;
    }

    /// Sets the selected circle's radius to `radius`, clamped to
    /// `[MIN_RADIUS, MAX_RADIUS]`. Without a selection nothing changes.
    pub fn update_radius(&mut self, radius: u32)
        requires
            old(self)@.wf(),
        ensures
            final(self)@ == old(self)@.set_selected_radius(radius as int),
            final(self)@.wf(),
    {
        if let Some(i) = self.selected {
            self.update_specific(radius, i);
        }
    }

    /// Sets the radius of circle `index` to `radius`, clamped to
    /// `[MIN_RADIUS, MAX_RADIUS]`.
    pub fn update_specific(&mut self, radius: u32, index: usize)
        requires
            old(self)@.wf(),
            index < old(self)@.circles.len(),
        ensures
            final(self)@ == (CanvasView {
                circles: old(self)@.circles.update(
                    index as int,
                    Circle { radius: clamp_radius(radius as int) as u32, ..old(self)@.circles[index as int] },
                ),
                ..old(self)@
            }),
            final(self)@.wf(),
    {
        let mut c = self.circles[index];
        c.radius = clamped_radius(radius);
        self.circles.set(index, c);
    }
}

/// A mouse button.
#[derive(Clone, Copy, PartialEq, Eq, Debug)]
pub enum MouseButton {
    Left,
    Right,
    Middle,
    Other,
}

/// A key, as far as the canvas tells keys apart.
#[derive(Clone, Copy, PartialEq, Eq, Debug)]
pub enum Key {
    Escape,
    Other,
}

/// An input event delivered to the canvas.
#[derive(Clone, Copy, PartialEq, Eq, Debug)]
pub enum CanvasEvent {
    MouseDown { button: MouseButton, pos: Point },
    KeyDown { key: Key },
    Other,
}

/// What the canvas asks of its host after an event.
#[derive(Clone, Copy, PartialEq, Eq, Debug)]
pub enum CanvasAction {
    Nothing,
    Repaint,
    ContextMenu(Point),
}

/// The canvas widget's input handling.
pub struct Canvas;

impl Canvas {
    pub fn new() -> (r: Canvas) {
        Canvas
    }

    /// Handles one input event: left clicks select or create circles,
    /// Escape clears the selection, a right click asks for the context
    /// menu. A disabled canvas ignores everything.
    pub fn event(&self, data: &mut CanvasData, event: CanvasEvent) -> (r: CanvasAction)
        requires
            old(data)@.wf(),
        ensures
            final(data)@ == old(data)@.after(event),
            r == old(data)@.action(event),
            final(data)@.wf(),
    {
        if !data.enabled {
            return CanvasAction::Nothing;
        }
        match event {
            CanvasEvent::MouseDown { button, pos } => match button {
                MouseButton::Left => {
                    data.click(pos);
                    CanvasAction::Repaint
                },
                MouseButton::Right => CanvasAction::ContextMenu(pos),
                _ => CanvasAction::Nothing,
            },
            CanvasEvent::KeyDown { key } => {
                if let Key::Escape = key {
                    data.deselect();
                }
                CanvasAction::Nothing
            },
            CanvasEvent::Other => CanvasAction::Nothing,
        }
    }
}

/// The hit test, stated directly: it finds nothing exactly when no circle
/// contains `p`, and otherwise a containing circle whose centre is nearest,
/// every containing circle before it being strictly farther.
pub proof fn lemma_nearest_upto(s: Seq<Circle>, p: Point, n: nat)
    requires
        n <= s.len(),
    ensures
        nearest_upto(s, p, n) is None <==> forall|j: int| 0 <= j < n ==> !s[j].contains(p),
        nearest_upto(s, p, n) matches Some(i) ==> {
            &&& 0 <= i < n
            &&& s[i].contains(p)
            &&& forall|j: int|
                0 <= j < n && s[j].contains(p) ==> dist2(s[i].pos, p) <= dist2(s[j].pos, p)
            &&& forall|j: int|
                0 <= j < i && s[j].contains(p) ==> dist2(s[j].pos, p) > dist2(s[i].pos, p)
        },
    decreases n,
{
    if n > 0 {
        lemma_nearest_upto(s, p, (n - 1) as nat);
    }
}

/// No circle of `s` contains `p`.
pub open spec fn outside_all(s: Seq<Circle>, p: Point) -> bool {
    forall|j: int| 0 <= j < s.len() ==> !s[j].contains(p)
}

/// The canvas after left clicks at each point of `ps` in turn.
pub open spec fn clicks(v: CanvasView, ps: Seq<Point>) -> CanvasView
    decreases ps.len(),
{
    if ps.len() == 0 {
        v
    } else {
        clicks(v, ps.drop_last()).click(ps.last())
    }
}

/// Left clicks on an empty canvas, each outside every circle drawn before
/// it, leave one circle per click, numbered from zero in click order, each
/// where it was clicked, and nothing selected.
pub proof fn law_clicks_outside_create(ps: Seq<Point>)
    requires
        forall|k: int|
            0 <= k < ps.len() ==> outside_all(
                clicks(CanvasView::empty(), ps.take(k)).circles,
                #[trigger] ps[k],
            ),
    ensures
        clicks(CanvasView::empty(), ps).circles.len() == ps.len(),
        forall|k: int|
            0 <= k < ps.len() ==> clicks(CanvasView::empty(), ps).circles[k] == (Circle {
                pos: ps[k],
                index: k as usize,
                radius: RADIUS,
            }),
        clicks(CanvasView::empty(), ps).selected is None,
    decreases ps.len(),
{
    if ps.len() > 0 {
        let n = ps.len() - 1;
        let init = ps.drop_last();
        assert forall|k: int| 0 <= k < init.len() implies outside_all(
            clicks(CanvasView::empty(), init.take(k)).circles,
            #[trigger] init[k],
        ) by {
            assert(init.take(k) == ps.take(k));
            assert(init[k] == ps[k]);
        }
        law_clicks_outside_create(init);
        assert(ps.take(n) == init);
        assert(outside_all(clicks(CanvasView::empty(), init).circles, ps[n]));
        lemma_nearest_upto(clicks(CanvasView::empty(), init).circles, ps[n], n as nat);
    }
}

/// A click on circle `i` when nothing is selected selects it, provided every
/// other circle containing the point has a farther centre; a second click
/// at the same point clears the selection again, and neither click adds a
/// circle.
pub proof fn law_click_toggles(v: CanvasView, p: Point, i: int)
    requires
        v.wf(),
        v.selected is None,
        0 <= i < v.circles.len(),
        v.circles[i].contains(p),
        forall|j: int|
            0 <= j < v.circles.len() && j != i && v.circles[j].contains(p) ==> dist2(
                v.circles[i].pos,
                p,
            ) < dist2(v.circles[j].pos, p),
    ensures
        v.click(p).selected == Some(v.circles[i].index),
        v.click(p).circles == v.circles,
        v.click(p).click(p).selected is None,
        v.click(p).click(p).circles == v.circles,
{
    lemma_nearest_upto(v.circles, p, v.circles.len());
}

/// A click whose point lies inside some circle adds no circle, and whatever
/// a click selects contains the point and has the nearest centre among the
/// circles that contain it.
pub proof fn law_click_selects_nearest(v: CanvasView, p: Point)
    requires
        v.wf(),
    ensures
        (exists|j: int| 0 <= j < v.circles.len() && v.circles[j].contains(p)) ==> v.click(
            p,
        ).circles == v.circles,
        v.click(p).selected matches Some(i) ==> {
            &&& i < v.circles.len()
            &&& v.circles[i as int].contains(p)
            &&& forall|j: int|
                0 <= j < v.circles.len() && v.circles[j].contains(p) ==> dist2(
                    v.circles[i as int].pos,
                    p,
                ) <= dist2(v.circles[j].pos, p)
        },
{
    lemma_nearest_upto(v.circles, p, v.circles.len());
}

/// Escape on a canvas that takes input leaves nothing selected, whatever
/// was selected before, and keeps the circles.
pub proof fn law_escape_clears(v: CanvasView)
    requires
        v.enabled,
    ensures
        v.after(CanvasEvent::KeyDown { key: Key::Escape }).selected is None,
        v.after(CanvasEvent::KeyDown { key: Key::Escape }).circles == v.circles,
{
}

/// A canvas that does not take input is left as it is by every event.
pub proof fn law_disabled_ignores(v: CanvasView, event: CanvasEvent)
    requires
        !v.enabled,
    ensures
        v.after(event) == v,
        v.action(event) == CanvasAction::Nothing,
{
}

/// Setting the radius of the selected circle changes that circle's radius
/// to the clamped value and nothing else: its position and index stay, and
/// every other circle, the selection and the circle count are as before.
pub proof fn law_radius_edit_is_local(v: CanvasView, r: int)
    requires
        v.wf(),
        v.selected is Some,
    ensures
        ({
            let i = v.selected->0 as int;
            let w = v.set_selected_radius(r);
            &&& w.circles.len() == v.circles.len()
            &&& w.circles[i].radius == clamp_radius(r)
            &&& w.circles[i].pos == v.circles[i].pos
            &&& w.circles[i].index == v.circles[i].index
            &&& forall|j: int| 0 <= j < v.circles.len() && j != i ==> w.circles[j] == v.circles[j]
            &&& w.selected == v.selected
            &&& w.wf()
        }),
{
}

} // verus!
