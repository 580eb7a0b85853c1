//! Screens and their geometry.
use vstd::prelude::*;

verus! {

/// `v / 2` rounded toward zero, as integer division on machine integers does.
pub open spec fn half(v: int) -> int {
    if v >= 0 {
        v / 2
    } else {
        -((-v) / 2)
    }
}

pub open spec fn fits_i32(v: int) -> bool {
    i32::MIN <= v <= i32::MAX
}

/// A screen: its name, its position and size in the global pixel space, its
/// scale factor and whether it is the primary one.
#[derive(Debug, Clone)]
pub struct Display {
    pub name: String,
    pub x: i32,
    pub y: i32,
    pub width: i32,
    pub height: i32,
    pub scale_factor: i32,
    pub is_primary: bool,
}

/// Whether the point (`x`, `y`) lies on screen `d` (left and top edges included).
pub open spec fn display_contains(d: Display, x: int, y: int) -> bool {
    d.x <= x < d.x + d.width && d.y <= y < d.y + d.height
}

impl Display {
    /// The centre of the screen.
    pub fn center(&self) -> (r: (i32, i32))
        requires
            fits_i32(self.x + half(self.width as int)),
            fits_i32(self.y + half(self.height as int)),
        ensures
            r.0 == self.x + half(self.width as int),
            r.1 == self.y + half(self.height as int),
    {
        (self.x + self.width / 2, self.y + self.height / 2)
    }

    /// Whether the point (`x`, `y`) lies on this screen.
    pub fn contains(&self, x: i32, y: i32) -> (r: bool)
        ensures
            r == display_contains(*self, x as int, y as int),
    {
        let px = x as i64;
        let py = y as i64;
        px >= self.x as i64 && px < self.x as i64 + self.width as i64 && py >= self.y as i64 && py
            < self.y as i64 + self.height as i64
    }
}

/// Geometry of a monitor as the windowing layer reports it.
#[derive(Debug, Clone)]
pub struct MonitorGeometry {
    pub name: String,
    pub x: i32,
    pub y: i32,
    pub width: i32,
    pub height: i32,
    pub scale_factor: i32,
}

/// The screen made from the `i`-th reported monitor: the first one is primary.
pub open spec fn display_from(m: MonitorGeometry, i: int) -> Display {
    Display {
        name: m.name,
        x: m.x,
        y: m.y,
        width: m.width,
        height: m.height,
        scale_factor: m.scale_factor,
        is_primary: i == 0,
    }
}

/// Index of the first screen from `i` on that is marked primary.
pub open spec fn first_primary_from(ds: Seq<Display>, i: int) -> Option<int>
    decreases ds.len() - i,
{
    if i < 0 || i >= ds.len() {
        None
    } else if ds[i].is_primary {
        Some(i)
    } else {
        first_primary_from(ds, i + 1)
    }
}

/// Index of the primary screen: the first marked primary, else the first one.
pub open spec fn primary_index(ds: Seq<Display>) -> Option<int> {
    match first_primary_from(ds, 0) {
        Some(k) => Some(k),
        None => if ds.len() > 0 {
            Some(0)
        } else {
            None
        },
    }
}

proof fn lemma_first_primary_in_range(ds: Seq<Display>, i: int)
    ensures
        first_primary_from(ds, i) matches Some(k) ==> i <= k < ds.len(),
    decreases ds.len() - i,
{
    if 0 <= i < ds.len() && !ds[i].is_primary {
        lemma_first_primary_in_range(ds, i + 1);
    }
}

/// The primary screen, when there is one, is one of the screens.
pub proof fn lemma_primary_index_in_range(ds: Seq<Display>)
    ensures
        primary_index(ds) matches Some(k) ==> 0 <= k < ds.len(),
{
    lemma_first_primary_in_range(ds, 0);
}

/// Smallest left edge among the first `n` screens.
pub open spec fn min_left(ds: Seq<Display>, n: int) -> int
    decreases n,
{
    if n <= 1 {
        ds[0].x as int
    } else {
        let m = min_left(ds, n - 1);
        if (ds[n - 1].x as int) < m { ds[n - 1].x as int } else { m }
    }
}

/// Smallest top edge among the first `n` screens.
pub open spec fn min_top(ds: Seq<Display>, n: int) -> int
    decreases n,
{
    if n <= 1 {
        ds[0].y as int
    } else {
        let m = min_top(ds, n - 1);
        if (ds[n - 1].y as int) < m { ds[n - 1].y as int } else { m }
    }
}

/// Largest right edge (`x + width`) among the first `n` screens.
pub open spec fn max_right(ds: Seq<Display>, n: int) -> int
    decreases n,
{
    if n <= 1 {
        ds[0].x + ds[0].width
    } else {
        let m = max_right(ds, n - 1);
        if ds[n - 1].x + ds[n - 1].width > m { ds[n - 1].x + ds[n - 1].width } else { m }
    }
}

/// Largest bottom edge (`y + height`) among the first `n` screens.
pub open spec fn max_bottom(ds: Seq<Display>, n: int) -> int
    decreases n,
{
    if n <= 1 {
        ds[0].y + ds[0].height
    } else {
        let m = max_bottom(ds, n - 1);
        if ds[n - 1].y + ds[n - 1].height > m { ds[n - 1].y + ds[n - 1].height } else { m }
    }
}

/// Whether the box around all screens can be written in 32-bit integers.
pub open spec fn bounds_fit(ds: Seq<Display>) -> bool {
    ds.len() > 0 ==> {
        let n = ds.len() as int;
        &&& fits_i32(max_right(ds, n))
        &&& fits_i32(max_bottom(ds, n))
        &&& fits_i32(max_right(ds, n) - min_left(ds, n))
        &&& fits_i32(max_bottom(ds, n) - min_top(ds, n))
    }
}

/// Keeps the list of screens.
pub struct DisplayManager {
    displays: Vec<Display>,
}

impl View for DisplayManager {
    type V = Seq<Display>;

    closed spec fn view(&self) -> Seq<Display> {
        self.displays@
    }
}

impl DisplayManager {
    /// A manager that knows no screen yet.
    pub fn new() -> (m: DisplayManager)
        ensures
            m@.len() == 0,
    {
        DisplayManager { displays: Vec::new() }
    }

    /// Replaces the screens by those the windowing layer reports, in its
    /// order; the first is the primary one.
    pub fn refresh_displays(&mut self, monitors: Vec<MonitorGeometry>)
        ensures
            final(self)@.len() == monitors@.len(),
            forall|i: int|
                0 <= i < monitors@.len() ==> #[trigger] final(self)@[i] == display_from(
                    monitors@[i],
                    i,
                ),
    {
        let mut displays: Vec<Display> = Vec::new();
        let mut i: usize = 0;
        while i < monitors.len()
            invariant
                0 <= i <= monitors@.len(),
                displays@.len() == i,
                forall|j: int| 0 <= j < i ==> #[trigger] displays@[j] == display_from(monitors@[j], j),
            decreases monitors@.len() - i,
        {
            let m = &monitors[i];
            let name = m.name.clone();
            displays.push(
                Display {
                    name,
                    x: m.x,
                    y: m.y,
                    width: m.width,
                    height: m.height,
                    scale_factor: m.scale_factor,
                    is_primary: i == 0,
                },
            );
            i = i + 1;
        }
        self.displays = displays;
    }

    /// All screens.
    pub fn displays(&self) -> (r: &[Display])
        ensures
            r@ == self@,
    {
        self.displays.as_slice()
    }

    /// The primary screen: the first marked primary, else the first one;
    /// nothing when there is no screen.
    pub fn primary_display(&self) -> (r: Option<&Display>)
        ensures
            match primary_index(self@) {
                Some(k) => 0 <= k < self@.len() && r is Some && *r->0 == self@[k],
                None => r is None,
            },
    {
        let mut i: usize = 0;
        while i < self.displays.len()
            invariant
                0 <= i <= self@.len(),
                first_primary_from(self@, 0) == first_primary_from(self@, i as int),
            decreases self@.len() - i,
        {
            if self.displays[i].is_primary {
                return Some(&self.displays[i]);
            }
            i = i + 1;
        }
        if self.displays.len() > 0 {
            Some(&self.displays[0])
        } else {
            None
        }
    }

    /// The first screen that holds the point (`x`, `y`), if any.
    pub fn display_at(&self, x: i32, y: i32) -> (r: Option<&Display>)
        ensures
            match r {
                Some(d) => exists|k: int|
                    0 <= k < self@.len() && *d == self@[k] && display_contains(self@[k], x as int, y as int)
                        && forall|j: int| 0 <= j < k ==> !display_contains(#[trigger] self@[j], x as int, y as int),
                None => forall|j: int| 0 <= j < self@.len() ==> !display_contains(#[trigger] self@[j], x as int, y as int),
            },
    {
        let mut i: usize = 0;
        while i < self.displays.len()
            invariant
                0 <= i <= self@.len(),
                forall|j: int| 0 <= j < i ==> !display_contains(#[trigger] self@[j], x as int, y as int),
            decreases self@.len() - i,
        {
            if self.displays[i].contains(x, y) {
                return Some(&self.displays[i]);
            }
            i = i + 1;
        }
        None
    }

    /// The box around all screens as (left, top, width, height); a 1920×1080
    /// box at the origin when there is no screen.
    pub fn total_bounds(&self) -> (r: (i32, i32, i32, i32))
        requires
            bounds_fit(self@),
        ensures
            self@.len() == 0 ==> r == (0i32, 0i32, 1920i32, 1080i32),
            self@.len() > 0 ==> {
                let n = self@.len() as int;
                &&& r.0 == min_left(self@, n)
                &&& r.1 == min_top(self@, n)
                &&& r.2 == max_right(self@, n) - min_left(self@, n)
                &&& r.3 == max_bottom(self@, n) - min_top(self@, n)
            },
    {
        let n = self.displays.len();
        if n == 0 {
            return (0, 0, 1920, 1080);
        }
        let mut min_x: i64 = self.displays[0].x as i64;
        let mut min_y: i64 = self.displays[0].y as i64;
        let mut max_x: i64 = self.displays[0].x as i64 + self.displays[0].width as i64;
        let mut max_y: i64 = self.displays[0].y as i64 + self.displays[0].height as i64;
        let mut i: usize = 1;
        while i < n
            invariant
                1 <= i <= n,
                n == self@.len(),
                min_x == min_left(self@, i as int),
                min_y == min_top(self@, i as int),
                max_x == max_right(self@, i as int),
                max_y == max_bottom(self@, i as int),
                fits_i32(min_x as int),
                fits_i32(min_y as int),
                -0x1_0000_0000 <= max_x <= 0x1_0000_0000,
                -0x1_0000_0000 <= max_y <= 0x1_0000_0000,
            decreases n - i,
        {
            let d = &self.displays[i];
            if (d.x as i64) < min_x {
                min_x = d.x as i64;
            }
            if (d.y as i64) < min_y {
                min_y = d.y as i64;
            }
            if d.x as i64 + d.width as i64 > max_x {
                max_x = d.x as i64 + d.width as i64;
            }
            if d.y as i64 + d.height as i64 > max_y {
                max_y = d.y as i64 + d.height as i64;
            }
            i = i + 1;
        }
        (min_x as i32, min_y as i32, (max_x - min_x) as i32, (max_y - min_y) as i32)
    }
}

impl Default for DisplayManager {
    fn default() -> (m: DisplayManager)
        ensures
            m@.len() == 0,
    {
        DisplayManager::new()
    }
}

} // verus!
