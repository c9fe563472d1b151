//! Colouring of the indexed images that make up the radar map.
use vstd::prelude::*;

verus! {

/// Number of entries of a palette: one for each index of an indexed image.
pub const PALETTE_SIZE: usize = 256;

/// A fully transparent colour.
pub open spec fn clear_rgba() -> Seq<u8> {
    seq![0u8, 0, 0, 0]
}

/// The colour of palette index `k` in a gray overlay: mid gray, opaque where
/// the image's palette entry is dark.
pub open spec fn shaded_entry(global: Seq<u8>, background: Option<u8>, k: int) -> Seq<u8> {
    if background == Some(k as u8) || 3 * k >= global.len() {
        clear_rgba()
    } else {
        seq![0x80u8, 0x80, 0x80, (255 - global[3 * k]) as u8]
    }
}

/// The colour of palette index `k` in an opaque overlay: the image's own colour.
pub open spec fn colored_entry(global: Seq<u8>, background: Option<u8>, k: int) -> Seq<u8> {
    if background == Some(k as u8) || 3 * k + 3 > global.len() {
        clear_rgba()
    } else {
        seq![global[3 * k], global[3 * k + 1], global[3 * k + 2], 0xFFu8]
    }
}

/// Palette for an overlay drawn in gray, with transparency from the image's
/// colours (red channel, inverted); the background index is transparent.
/// `global` is the image's palette, three bytes per entry.
pub fn shaded_palette(global: &Vec<u8>, background: Option<u8>) -> (palette: Vec<[u8; 4]>)
    requires
        global@.len() <= 3 * PALETTE_SIZE,
    ensures
        palette@.len() == PALETTE_SIZE,
        forall|k: int| 0 <= k < PALETTE_SIZE ==> #[trigger] palette@[k]@ == shaded_entry(global@, background, k),
{
    let mut palette: Vec<[u8; 4]> = Vec::new();
    let mut k: usize = 0;
    while k < PALETTE_SIZE
        invariant
            k <= PALETTE_SIZE,
            global@.len() <= 3 * PALETTE_SIZE,
            palette@.len() == k,
            forall|j: int| 0 <= j < k ==> #[trigger] palette@[j]@ == shaded_entry(global@, background, j),
        decreases PALETTE_SIZE - k,
    {
        let entry: [u8; 4] = if background == Some(k as u8) || 3 * k >= global.len() {
            [0, 0, 0, 0]
        } else {
            [0x80, 0x80, 0x80, 255 - global[3 * k]]
        };
        assert(entry@ =~= shaded_entry(global@, background, k as int));
        palette.push(entry);
        k = k + 1;
    }
    palette
}

/// Palette for an overlay drawn in the image's own opaque colours; the
/// background index is transparent. `global` is the image's palette, three
/// bytes per entry.
pub fn colored_palette(global: &Vec<u8>, background: Option<u8>) -> (palette: Vec<[u8; 4]>)
    requires
        global@.len() <= 3 * PALETTE_SIZE,
    ensures
        palette@.len() == PALETTE_SIZE,
        forall|k: int| 0 <= k < PALETTE_SIZE ==> #[trigger] palette@[k]@ == colored_entry(global@, background, k),
{
    let mut palette: Vec<[u8; 4]> = Vec::new();
    let mut k: usize = 0;
    while k < PALETTE_SIZE
        invariant
            k <= PALETTE_SIZE,
            global@.len() <= 3 * PALETTE_SIZE,
            palette@.len() == k,
            forall|j: int| 0 <= j < k ==> #[trigger] palette@[j]@ == colored_entry(global@, background, j),
        decreases PALETTE_SIZE - k,
    {
        let entry: [u8; 4] = if background == Some(k as u8) || 3 * k + 3 > global.len() {
            [0, 0, 0, 0]
        } else {
            [global[3 * k], global[3 * k + 1], global[3 * k + 2], 0xFF]
        };
        assert(entry@ =~= colored_entry(global@, background, k as int));
        palette.push(entry);
        k = k + 1;
    }
    palette
}

/// Turns an indexed image into RGBA bytes, four per pixel, through a palette.
pub fn colorize(indices: &Vec<u8>, palette: &Vec<[u8; 4]>) -> (rgba: Vec<u8>)
    requires
        palette@.len() == PALETTE_SIZE,
        indices@.len() * 4 <= usize::MAX,
    ensures
        rgba@.len() == 4 * indices@.len(),
        forall|i: int, c: int|
            0 <= i < indices@.len() && 0 <= c < 4 ==> #[trigger] rgba@[4 * i + c]
                == palette@[indices@[i] as int]@[c],
{
    let mut rgba: Vec<u8> = Vec::new();
    let mut i: usize = 0;
    while i < indices.len()
        invariant
            i <= indices@.len(),
            palette@.len() == PALETTE_SIZE,
            indices@.len() * 4 <= usize::MAX,
            rgba@.len() == 4 * i,
            forall|j: int, c: int|
                0 <= j < i && 0 <= c < 4 ==> #[trigger] rgba@[4 * j + c] == palette@[indices@[j] as int]@[c],
        decreases indices@.len() - i,
    {
        let color: [u8; 4] = palette[indices[i] as usize];
        let ghost before = rgba@;
        rgba.push(color[0]);
        rgba.push(color[1]);
        rgba.push(color[2]);
        rgba.push(color[3]);
        assert forall|j: int, c: int| 0 <= j <= i && 0 <= c < 4 implies #[trigger] rgba@[4 * j + c]
            == palette@[indices@[j] as int]@[c] by {
            if j < i {
                assert(rgba@[4 * j + c] == before[4 * j + c]);
            } else {
                assert(rgba@[4 * j + c] == color@[c]);
            }
        }
        i = i + 1;
    }
    rgba
}

/// Position of the first pixel of the colour scale in a radar image.
pub const SCALE_START: usize = 524;

/// Every `step`-th value of `s`, starting with the first.
pub open spec fn every_nth(s: Seq<u8>, step: nat) -> Seq<u8>
    decreases s.len(),
{
    if s.len() == 0 || step == 0 {
        Seq::empty()
    } else if s.len() <= step {
        seq![s[0]]
    } else {
        seq![s[0]] + every_nth(s.skip(step as int), step)
    }
}

/// The distinct values of `s`, in the order in which they first appear.
pub open spec fn first_seen(s: Seq<u8>) -> Seq<u8>
    decreases s.len(),
{
    if s.len() == 0 {
        Seq::empty()
    } else {
        let seen = first_seen(s.drop_last());
        if seen.contains(s.last()) {
            seen
        } else {
            seen.push(s.last())
        }
    }
}

/// The colour scale of a radar image `width` pixels wide: the distinct
/// indices down the scale column, from the top.
pub open spec fn scale_of(buffer: Seq<u8>, width: nat) -> Seq<u8> {
    if buffer.len() <= SCALE_START {
        Seq::empty()
    } else {
        first_seen(every_nth(buffer.skip(SCALE_START as int), width))
    }
}

/// Opacity given to step `q` of a colour scale with `m` steps: the last five
/// fade in from light to strong, a few before them are opaque, the first
/// ones (the darkest, which the map also uses for borders) are not drawn.
pub open spec fn scale_alpha(q: int, m: int) -> Option<u8> {
    if q >= m - 5 {
        Some((0x55 + 0x2A * (m - 1 - q)) as u8)
    } else if q >= (if m - 5 >= 4 { 3 } else { m - 6 }) {
        Some(0xFFu8)
    } else {
        None
    }
}

/// The colour of a step of the colour scale: black with the step's opacity.
pub open spec fn scale_color(q: int, m: int) -> Seq<u8> {
    match scale_alpha(q, m) {
        Some(alpha) => seq![0u8, 0, 0, alpha],
        None => clear_rgba(),
    }
}

fn contains(values: &Vec<u8>, x: u8) -> (found: bool)
    ensures
        found == values@.contains(x),
{
    let mut i: usize = 0;
    while i < values.len()
        invariant
            i <= values@.len(),
            forall|j: int| 0 <= j < i ==> values@[j] != x,
        decreases values@.len() - i,
    {
        if values[i] == x {
            return true;
        }
        i = i + 1;
    }
    false
}

proof fn lemma_first_seen_distinct(s: Seq<u8>)
    ensures
        first_seen(s).no_duplicates(),
    decreases s.len(),
{
    if s.len() > 0 {
        lemma_first_seen_distinct(s.drop_last());
    }
}

/// The colour scale of a radar image: the distinct palette indices down the
/// scale column, in the order in which they first appear.
fn scale(buffer: &Vec<u8>, width: usize) -> (scale: Vec<u8>)
    requires
        width > 0,
    ensures
        scale@ == scale_of(buffer@, width as nat),
{
    let mut scale: Vec<u8> = Vec::new();
    let len = buffer.len();
    if len <= SCALE_START {
        return scale;
    }
    let ghost column: Seq<u8> = Seq::empty();
    let ghost whole = every_nth(buffer@.skip(SCALE_START as int), width as nat);
    let mut pos: usize = SCALE_START;
    loop
        invariant
            len == buffer@.len(),
            SCALE_START <= pos < len,
            width > 0,
            whole == every_nth(buffer@.skip(SCALE_START as int), width as nat),
            column + every_nth(buffer@.skip(pos as int), width as nat) == whole,
            scale@ == first_seen(column),
        decreases len - pos,
    {
        let value = buffer[pos];
        let ghost next = column.push(value);
        assert(next.drop_last() =~= column);
        if !contains(&scale, value) {
            scale.push(value);
        }
        assert(scale@ == first_seen(next));
        if len - pos <= width {
            assert(every_nth(buffer@.skip(pos as int), width as nat) =~= seq![value]);
            assert(next =~= whole);
            return scale;
        }
        assert(buffer@.skip(pos as int).skip(width as int) =~= buffer@.skip(pos + width));
        assert(next + every_nth(buffer@.skip(pos + width), width as nat) =~= whole);
        proof {
            column = next;
        }
        pos = pos + width;
    }
}

/// Palette for the radar echoes: the steps of the image's colour scale in
/// black, from transparent to opaque; every other index is transparent.
pub fn scale_palette(buffer: &Vec<u8>, width: usize) -> (palette: Vec<[u8; 4]>)
    requires
        width > 0,
    ensures
        palette@.len() == PALETTE_SIZE,
        forall|q: int|
            0 <= q < scale_of(buffer@, width as nat).len() ==> palette@[scale_of(
                buffer@,
                width as nat,
            )[q] as int]@ == scale_color(q, scale_of(buffer@, width as nat).len() as int),
        forall|k: int|
            0 <= k < PALETTE_SIZE && !scale_of(buffer@, width as nat).contains(k as u8)
                ==> #[trigger] palette@[k]@ == clear_rgba(),
{
    let steps = scale(buffer, width);
    proof {
        if buffer@.len() > SCALE_START {
            lemma_first_seen_distinct(every_nth(buffer@.skip(SCALE_START as int), width as nat));
        }
    }
    let m = steps.len();
    let mut palette: Vec<[u8; 4]> = Vec::new();
    let mut k: usize = 0;
    while k < PALETTE_SIZE
        invariant
            k <= PALETTE_SIZE,
            palette@.len() == k,
            forall|j: int| 0 <= j < k ==> #[trigger] palette@[j]@ == clear_rgba(),
        decreases PALETTE_SIZE - k,
    {
        let entry: [u8; 4] = [0, 0, 0, 0];
        assert(entry@ =~= clear_rgba());
        palette.push(entry);
        k = k + 1;
    }
    let mut q: usize = 0;
    while q < m
        invariant
            m == steps@.len(),
            steps@ == scale_of(buffer@, width as nat),
            steps@.no_duplicates(),
            q <= m,
            palette@.len() == PALETTE_SIZE,
            forall|j: int| 0 <= j < q ==> palette@[steps@[j] as int]@ == scale_color(j, m as int),
            forall|k: int|
                0 <= k < PALETTE_SIZE && !steps@.take(q as int).contains(k as u8)
                    ==> #[trigger] palette@[k]@ == clear_rgba(),
        decreases m - q,
    {
        let alpha: Option<u8> = if m - q <= 5 {
            Some((0x55 + 0x2A * (m - 1 - q)) as u8)
        } else if q >= (if m - 5 >= 4 { 3 } else { m - 6 }) {
            Some(0xFF)
        } else {
            None
        };
        assert(alpha == scale_alpha(q as int, m as int));
        let index = steps[q];
        let ghost before = palette@;
        match alpha {
            Some(a) => {
                let entry: [u8; 4] = [0, 0, 0, a];
                assert(entry@ =~= scale_color(q as int, m as int));
                palette.set(index as usize, entry);
            },
            None => {
                assert(before[index as int]@ == clear_rgba()) by {
                    assert(!steps@.take(q as int).contains(index)) by {
                        if steps@.take(q as int).contains(index) {
                            let j = choose|j: int| 0 <= j < q && steps@.take(q as int)[j] == index;
                            assert(steps@[j] == steps@[q as int]);
                        }
                    }
                }
                assert(scale_color(q as int, m as int) =~= clear_rgba());
            },
        }
        assert forall|j: int| 0 <= j < q implies palette@[steps@[j] as int]@ == scale_color(
            j,
            m as int,
        ) by {
            assert(steps@[j] != steps@[q as int]);
        }
        assert forall|k: int|
            0 <= k < PALETTE_SIZE && !steps@.take(q + 1).contains(k as u8) implies #[trigger] palette@[k]@
            == clear_rgba() by {
            assert(steps@.take(q + 1)[q as int] == index);
            if k != index as int {
                assert(!steps@.take(q as int).contains(k as u8)) by {
                    if steps@.take(q as int).contains(k as u8) {
                        let j = choose|j: int| 0 <= j < q && steps@.take(q as int)[j] == k as u8;
                        assert(steps@.take(q + 1)[j] == k as u8);
                    }
                }
            }
        }
        q = q + 1;
    }
    assert(steps@.take(m as int) =~= steps@);
    palette
}

/// The path prefix of a radar image in the radar page, as bytes.
pub open spec fn image_marker() -> Seq<u8> {
    seq![0x2Fu8, 0x64, 0x61, 0x74, 0x61, 0x2F, 0x72, 0x61, 0x64, 0x61, 0x72, 0x2F, 0x74, 0x65, 0x6D, 0x70, 0x5F, 0x69, 0x6D, 0x61, 0x67, 0x65]
}

/// Whether `pattern` occurs in `text` at position `i`.
pub open spec fn occurs_at(text: Seq<u8>, pattern: Seq<u8>, i: int) -> bool {
    0 <= i && i + pattern.len() <= text.len() && text.subrange(i, i + pattern.len()) == pattern
}

/// The ASCII double quote that ends an attribute value.
pub const QUOTE: u8 = 0x22;

fn marker_bytes() -> (marker: Vec<u8>)
    ensures
        marker@ == image_marker(),
{
    let marker: Vec<u8> = vec![0x2F, 0x64, 0x61, 0x74, 0x61, 0x2F, 0x72, 0x61, 0x64, 0x61, 0x72, 0x2F, 0x74, 0x65, 0x6D, 0x70, 0x5F, 0x69, 0x6D, 0x61, 0x67, 0x65];
    assert(marker@ =~= image_marker());
    marker
}

fn matches_at(text: &Vec<u8>, pattern: &Vec<u8>, i: usize) -> (found: bool)
    requires
        i <= text@.len(),
    ensures
        found == occurs_at(text@, pattern@, i as int),
{
    if text.len() - i < pattern.len() {
        return false;
    }
    let mut j: usize = 0;
    while j < pattern.len()
        invariant
            i + pattern@.len() <= text@.len(),
            text@.len() <= usize::MAX,
            j <= pattern@.len(),
            forall|k: int| 0 <= k < j ==> text@[i + k] == pattern@[k],
        decreases pattern@.len() - j,
    {
        if text[i + j] != pattern[j] {
            assert(text@.subrange(i as int, i + pattern@.len())[j as int] != pattern@[j as int]);
            return false;
        }
        j = j + 1;
    }
    assert(text@.subrange(i as int, i + pattern@.len()) =~= pattern@);
    true
}

/// Where the address of the radar image lies in the radar page: from the
/// first occurrence of the image path prefix up to, not including, the next
/// double quote. `None` when the page has no such prefix or no quote after it.
pub fn image_url_span(page: &Vec<u8>) -> (span: Option<(usize, usize)>)
    ensures
        span is None <==> (forall|i: int| !#[trigger] occurs_at(page@, image_marker(), i)) || (exists|s: int|
            #[trigger] occurs_at(page@, image_marker(), s) && (forall|i: int| 0 <= i < s ==> !#[trigger] occurs_at(page@, image_marker(), i))
            && forall|j: int| s <= j < page@.len() ==> page@[j] != QUOTE),
        span matches Some((s, e)) ==> {
            &&& occurs_at(page@, image_marker(), s as int)
            &&& forall|i: int| 0 <= i < s ==> !#[trigger] occurs_at(page@, image_marker(), i)
            &&& s <= e < page@.len()
            &&& page@[e as int] == QUOTE
            &&& forall|j: int| s <= j < e ==> page@[j] != QUOTE
        },
{
    let marker = marker_bytes();
    let mut start: usize = 0;
    while start < page.len()
        invariant
            marker@ == image_marker(),
            start <= page@.len(),
            forall|i: int| 0 <= i < start ==> !#[trigger] occurs_at(page@, image_marker(), i),
        decreases page@.len() - start,
    {
        if matches_at(page, &marker, start) {
            let mut end: usize = start;
            while end < page.len()
                invariant
                    start <= end <= page@.len(),
                    occurs_at(page@, image_marker(), start as int),
                    forall|i: int| 0 <= i < start ==> !#[trigger] occurs_at(page@, image_marker(), i),
                    forall|j: int| start <= j < end ==> page@[j] != QUOTE,
                decreases page@.len() - end,
            {
                if page[end] == QUOTE {
                    assert forall|s: int|
                        #[trigger] occurs_at(page@, image_marker(), s) && (forall|i: int|
                            0 <= i < s ==> !#[trigger] occurs_at(page@, image_marker(), i))
                        implies exists|j: int| s <= j < page@.len() && page@[j] == QUOTE by {
                        assert(s == start as int);
                        assert(page@[end as int] == QUOTE);
                    }
                    return Some((start, end));
                }
                end = end + 1;
            }
            assert(occurs_at(page@, image_marker(), start as int));
            return None;
        }
        start = start + 1;
    }
    assert forall|i: int| !#[trigger] occurs_at(page@, image_marker(), i) by {
        if 0 <= i && i >= page@.len() {
            assert(i + image_marker().len() > page@.len());
        }
    }
    None
}

} // verus!
