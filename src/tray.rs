use vstd::prelude::*;

verus! {

/// A choice made in the tray menu.
#[derive(Clone, Copy, Debug, PartialEq, Eq, Structural)]
pub enum TrayEvent {
    Settings,
    Quit,
}

/// The ARGB form of RGBA pixels: each whole group of four bytes
/// `r, g, b, a` becomes `a, r, g, b`; a trailing partial group is dropped.
pub open spec fn argb_of(rgba: Seq<u8>) -> Seq<u8> {
    Seq::new(
        ((rgba.len() / 4) * 4) as nat,
        |i: int|
            if i % 4 == 0 {
                rgba[i + 3]
            } else {
                rgba[i - 1]
            },
    )
}

/// Converts RGBA icon pixels to the ARGB order that tray hosts expect.
pub fn rgba_to_argb(rgba: &[u8]) -> (r: Vec<u8>)
    ensures
        r@ == argb_of(rgba@),
{
    let len = rgba.len();
    let n = len / 4;
    let mut r: Vec<u8> = Vec::new();
    let mut k: usize = 0;
    while k < n
        invariant
            len == rgba@.len(),
            n == len / 4,
            k <= n,
            r@.len() == 4 * k,
            forall|i: int| 0 <= i < 4 * k ==> #[trigger] r@[i] == argb_of(rgba@)[i],
        decreases n - k,
    {
        assert(4 * k + 4 <= 4 * n);
        let b = 4 * k;
        r.push(rgba[b + 3]);
        r.push(rgba[b]);
        r.push(rgba[b + 1]);
        r.push(rgba[b + 2]);
        k += 1;
        assert forall|i: int| 0 <= i < 4 * k implies #[trigger] r@[i] == argb_of(rgba@)[i] by {
            if i >= b {
                assert(i / 4 == k - 1);
            }
        }
    }
    assert(r@ =~= argb_of(rgba@));
    r
}

} // verus!
