//! Choosing a 32-bit visual with an alpha channel for a transparent overlay,
//! from what the X server reports about its picture formats and screens.
use vstd::prelude::*;

verus! {

/// Depth of a visual with an alpha channel.
pub const ARGB_DEPTH: u8 = 32;

/// A picture format: its id, depth, whether it is a direct (true-colour)
/// format, and the mask of its alpha channel.
#[derive(Debug, Clone, Copy, PartialEq, Eq, Structural)]
pub struct PictFormatInfo {
    pub id: u32,
    pub depth: u8,
    pub direct: bool,
    pub alpha_mask: u16,
}

/// A visual and the picture format it uses.
#[derive(Debug, Clone, Copy, PartialEq, Eq, Structural)]
pub struct PictVisual {
    pub visual: u32,
    pub format: u32,
}

/// The visuals of one depth, as the render extension lists them.
#[derive(Debug, Clone)]
pub struct PictDepth {
    pub depth: u8,
    pub visuals: Vec<PictVisual>,
}

/// The depths of one screen, as the render extension lists them.
#[derive(Debug, Clone)]
pub struct PictScreen {
    pub depths: Vec<PictDepth>,
}

/// A depth the screen allows and the ids of its visuals, in the server's order.
#[derive(Debug, Clone)]
pub struct AllowedDepth {
    pub depth: u8,
    pub visual_ids: Vec<u32>,
}

/// Why no visual could be chosen.
#[derive(Debug, Clone, Copy, PartialEq, Eq, Structural)]
pub enum VisualError {
    NoArgbVisual,
}

/// A 32-bit direct format with an alpha channel.
pub open spec fn is_argb_format(f: PictFormatInfo) -> bool {
    f.depth == ARGB_DEPTH && f.direct && f.alpha_mask > 0
}

/// The visuals of a depth when it is 32 bits deep, else none.
pub open spec fn deep_visuals(d: PictDepth) -> Seq<PictVisual> {
    if d.depth == ARGB_DEPTH {
        d.visuals@
    } else {
        seq![]
    }
}

/// The 32-bit visuals of the first `n` depths, in order.
pub open spec fn depths_visuals(ds: Seq<PictDepth>, n: int) -> Seq<PictVisual>
    decreases n,
{
    if n <= 0 {
        seq![]
    } else {
        depths_visuals(ds, n - 1) + deep_visuals(ds[n - 1])
    }
}

/// The 32-bit visuals of the first `n` screens, in order.
pub open spec fn screens_visuals(ss: Seq<PictScreen>, n: int) -> Seq<PictVisual>
    decreases n,
{
    if n <= 0 {
        seq![]
    } else {
        screens_visuals(ss, n - 1) + depths_visuals(ss[n - 1].depths@, ss[n - 1].depths@.len() as int)
    }
}

/// The first visual in `vs` that uses format `id`.
pub open spec fn visual_of_format(vs: Seq<PictVisual>, id: u32) -> Option<u32>
    decreases vs.len(),
{
    if vs.len() == 0 {
        None
    } else if vs[0].format == id {
        Some(vs[0].visual)
    } else {
        visual_of_format(vs.drop_first(), id)
    }
}

/// The visual of the first alpha format, in the order of `fs`, that one of
/// the 32-bit visuals `vs` uses.
pub open spec fn argb_visual_in(fs: Seq<PictFormatInfo>, vs: Seq<PictVisual>) -> Option<u32>
    decreases fs.len(),
{
    if fs.len() == 0 {
        None
    } else if is_argb_format(fs[0]) && visual_of_format(vs, fs[0].id) is Some {
        visual_of_format(vs, fs[0].id)
    } else {
        argb_visual_in(fs.drop_first(), vs)
    }
}

/// The first visual of the first 32-bit allowed depth that has one.
pub open spec fn fallback_visual(ds: Seq<AllowedDepth>) -> Option<u32>
    decreases ds.len(),
{
    if ds.len() == 0 {
        None
    } else if ds[0].depth == ARGB_DEPTH && ds[0].visual_ids@.len() > 0 {
        Some(ds[0].visual_ids@[0])
    } else {
        fallback_visual(ds.drop_first())
    }
}

fn collect_screen_visuals(out: &mut Vec<PictVisual>, depths: &Vec<PictDepth>)
    ensures
        final(out)@ == old(out)@ + depths_visuals(depths@, depths@.len() as int),
{
    let mut j: usize = 0;
    while j < depths.len()
        invariant
            0 <= j <= depths@.len(),
            out@ == old(out)@ + depths_visuals(depths@, j as int),
        decreases depths@.len() - j,
    {
        let d = &depths[j];
        let ghost before = out@;
        if d.depth == ARGB_DEPTH {
            let mut k: usize = 0;
            while k < d.visuals.len()
                invariant
                    0 <= k <= d.visuals@.len(),
                    out@ == before + d.visuals@.subrange(0, k as int),
                decreases d.visuals@.len() - k,
            {
                out.push(d.visuals[k]);
                assert(d.visuals@.subrange(0, k + 1) =~= d.visuals@.subrange(0, k as int).push(
                    d.visuals@[k as int],
                ));
                k = k + 1;
            }
            assert(d.visuals@.subrange(0, d.visuals@.len() as int) =~= d.visuals@);
        }
        assert(out@ =~= old(out)@ + depths_visuals(depths@, j + 1));
        j = j + 1;
    }
}

fn find_visual_of_format(vs: &Vec<PictVisual>, id: u32) -> (r: Option<u32>)
    ensures
        r == visual_of_format(vs@, id),
{
    assert(vs@.subrange(0, vs@.len() as int) =~= vs@);
    let mut i: usize = 0;
    while i < vs.len()
        invariant
            0 <= i <= vs@.len(),
            visual_of_format(vs@.subrange(i as int, vs@.len() as int), id) == visual_of_format(
                vs@,
                id,
            ),
        decreases vs@.len() - i,
    {
        let ghost rest = vs@.subrange(i as int, vs@.len() as int);
        assert(rest.drop_first() =~= vs@.subrange(i + 1, vs@.len() as int));
        assert(rest[0] == vs@[i as int]);
        if vs[i].format == id {
            return Some(vs[i].visual);
        }
        i = i + 1;
    }
    None
}

/// Finds a 32-bit visual with alpha: the visual of the first alpha format (in
/// the server's order of formats) that a 32-bit visual of some screen uses;
/// failing that, the first visual of the first 32-bit depth the screen allows.
pub fn find_argb_visual(
    formats: &Vec<PictFormatInfo>,
    screens: &Vec<PictScreen>,
    allowed_depths: &Vec<AllowedDepth>,
) -> (r: Result<(u32, u8), VisualError>)
    ensures
        ({
            let vs = screens_visuals(screens@, screens@.len() as int);
            match argb_visual_in(formats@, vs) {
                Some(v) => r == Ok::<(u32, u8), VisualError>((v, ARGB_DEPTH)),
                None => match fallback_visual(allowed_depths@) {
                    Some(v) => r == Ok::<(u32, u8), VisualError>((v, ARGB_DEPTH)),
                    None => r == Err::<(u32, u8), VisualError>(VisualError::NoArgbVisual),
                },
            }
        }),
{
    let mut visuals: Vec<PictVisual> = Vec::new();
    let mut s: usize = 0;
    while s < screens.len()
        invariant
            0 <= s <= screens@.len(),
            visuals@ == screens_visuals(screens@, s as int),
        decreases screens@.len() - s,
    {
        collect_screen_visuals(&mut visuals, &screens[s].depths);
        s = s + 1;
    }
    let ghost vs = visuals@;
    assert(formats@.subrange(0, formats@.len() as int) =~= formats@);
    let mut f: usize = 0;
    while f < formats.len()
        invariant
            0 <= f <= formats@.len(),
            vs == visuals@,
            vs == screens_visuals(screens@, screens@.len() as int),
            argb_visual_in(formats@.subrange(f as int, formats@.len() as int), vs) == argb_visual_in(
                formats@,
                vs,
            ),
        decreases formats@.len() - f,
    {
        let ghost rest = formats@.subrange(f as int, formats@.len() as int);
        assert(rest.drop_first() =~= formats@.subrange(f + 1, formats@.len() as int));
        let format = formats[f];
        assert(rest[0] == format);
        if format.depth == ARGB_DEPTH && format.direct && format.alpha_mask > 0 {
            if let Some(v) = find_visual_of_format(&visuals, format.id) {
                return Ok((v, ARGB_DEPTH));
            }
        }
        f = f + 1;
    }
    assert(formats@.subrange(formats@.len() as int, formats@.len() as int).len() == 0);
    assert(allowed_depths@.subrange(0, allowed_depths@.len() as int) =~= allowed_depths@);
    let mut d: usize = 0;
    while d < allowed_depths.len()
        invariant
            0 <= d <= allowed_depths@.len(),
            vs == screens_visuals(screens@, screens@.len() as int),
            argb_visual_in(formats@, vs) is None,
            fallback_visual(allowed_depths@.subrange(d as int, allowed_depths@.len() as int))
                == fallback_visual(allowed_depths@),
        decreases allowed_depths@.len() - d,
    {
        let ghost rest = allowed_depths@.subrange(d as int, allowed_depths@.len() as int);
        assert(rest.drop_first() =~= allowed_depths@.subrange(d + 1, allowed_depths@.len() as int));
        let depth = &allowed_depths[d];
        assert(rest[0] == *depth);
        if depth.depth == ARGB_DEPTH && depth.visual_ids.len() > 0 {
            return Ok((depth.visual_ids[0], ARGB_DEPTH));
        }
        d = d + 1;
    }
    Err(VisualError::NoArgbVisual)
}

} // verus!
