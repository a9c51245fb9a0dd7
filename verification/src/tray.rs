//! The two notification-area icons: their tooltips, which sample each column
//! of an icon shows, and the bookkeeping of adding, updating and removing
//! them so that every icon handle is destroyed once it is replaced.

use std::collections::VecDeque;
use vstd::multiset::Multiset;
use vstd::prelude::*;
use crate::text::{encode_utf16, push_utf16_str};

verus! {

/// Length of a tooltip buffer, in UTF-16 units.
pub const TOOLTIP_LEN: usize = 128;

/// The identifiers of the two icons.
pub const ID_TRAY_CPU: u32 = 1;
pub const ID_TRAY_RAM: u32 = 2;

/// The units a tooltip takes from `text`: its UTF-16 encoding with a
/// terminating zero, cut to the buffer's length.
pub open spec fn tooltip_units(text: Seq<char>) -> Seq<u16> {
    let wide = encode_utf16(text).push(0);
    wide.take(if wide.len() < TOOLTIP_LEN { wide.len() as int } else { TOOLTIP_LEN as int })
}

/// Writes `text` into a tooltip buffer: its UTF-16 units and a terminating
/// zero, as many as fit; the rest of the buffer is left as it was.
pub fn set_tooltip(tip: &mut [u16; 128], text: &str)
    ensures
        final(tip)@ == tooltip_units(text@) + old(tip)@.skip(tooltip_units(text@).len() as int),
{
    let mut wide: Vec<u16> = Vec::new();
    push_utf16_str(&mut wide, text);
    wide.push(0);
    assert(wide@ =~= encode_utf16(text@).push(0));
    let len: usize = if wide.len() < TOOLTIP_LEN {
        wide.len()
    } else {
        TOOLTIP_LEN
    };
    let ghost before = tip@;
    let mut i: usize = 0;
    while i < len
        invariant
            len <= wide.len(),
            len <= TOOLTIP_LEN,
            i <= len,
            tip@.len() == TOOLTIP_LEN,
            forall|j: int| 0 <= j < i ==> tip@[j] == wide@[j],
            forall|j: int| i <= j < TOOLTIP_LEN ==> tip@[j] == before[j],
        decreases len - i,
    {
        tip[i] = wide[i];
        i = i + 1;
    }
    assert(tip@ =~= tooltip_units(text@) + before.skip(len as int));
}

/// A text whose UTF-16 encoding is shorter than the buffer is written whole,
/// followed by a terminating zero; a longer one fills the buffer with its
/// first units and has no terminating zero.
pub proof fn lemma_tooltip_terminated(text: Seq<char>)
    ensures
        encode_utf16(text).len() < TOOLTIP_LEN ==> tooltip_units(text) == encode_utf16(text).push(0),
        encode_utf16(text).len() >= TOOLTIP_LEN ==> tooltip_units(text) == encode_utf16(text).take(
            TOOLTIP_LEN as int,
        ),
{
    let wide = encode_utf16(text).push(0);
    if encode_utf16(text).len() < TOOLTIP_LEN {
        assert(wide.take(wide.len() as int) =~= wide);
    } else {
        assert(wide.take(TOOLTIP_LEN as int) =~= encode_utf16(text).take(TOOLTIP_LEN as int));
    }
}

/// The sample that column `x` of an icon `cx` columns wide shows: the
/// history is drawn against the right edge, newest sample in the last
/// column; columns left of the oldest sample show `zero`.
pub open spec fn column_sample<V>(history: Seq<V>, cx: int, x: int, zero: V) -> V {
    let k = x + history.len() - cx;
    if k >= 0 {
        history[k]
    } else {
        zero
    }
}

/// The samples of the `cx` columns of a tray icon, left to right; none
/// where `cx` is not positive.
pub fn icon_columns<V: Copy>(history: &VecDeque<V>, cx: i32, zero: V) -> (r: Vec<V>)
    ensures
        r@.len() == if cx > 0 {
            cx as int
        } else {
            0
        },
        forall|x: int| 0 <= x < r@.len() ==> r@[x] == column_sample(history@, cx as int, x, zero),
{
    let mut r: Vec<V> = Vec::new();
    if cx <= 0 {
        return r;
    }
    let width: usize = cx as usize;
    let len: usize = history.len();
    let mut x: usize = 0;
    while x < width
        invariant
            width == cx as int,
            len == history@.len(),
            x <= width,
            r@.len() == x,
            forall|j: int| 0 <= j < x ==> r@[j] == column_sample(history@, cx as int, j, zero),
        decreases width - x,
    {
        let val: V = if len >= width {
            history[len - width + x]
        } else if x >= width - len {
            history[x - (width - len)]
        } else {
            zero
        };
        r.push(val);
        x = x + 1;
    }
    r
}

/// The newest sample is in the rightmost column; reading leftwards the
/// columns go back through the history one sample each, and the columns
/// left of the oldest sample are `zero`.
pub proof fn lemma_newest_sample_rightmost<V>(history: Seq<V>, cx: int, zero: V)
    requires
        cx > 0,
        history.len() > 0,
    ensures
        column_sample(history, cx, cx - 1, zero) == history.last(),
        forall|x: int|
            0 <= x < cx - 1 && x + history.len() - cx >= 0 ==> #[trigger] column_sample(
                history,
                cx,
                x,
                zero,
            ) == history[x + history.len() - cx] && column_sample(history, cx, x + 1, zero)
                == history[x + 1 + history.len() - cx],
        forall|x: int|
            0 <= x < cx - history.len() ==> #[trigger] column_sample(history, cx, x, zero) == zero,
{
}

/// What the notification area is asked: add the icons (`NIM_ADD`), update
/// them (`NIM_MODIFY`), delete them (`NIM_DELETE`), or nothing.
#[derive(Clone, Copy, Debug, PartialEq, Eq, Structural)]
pub enum NotifyOp {
    Add,
    Modify,
    Delete,
    Nothing,
}

/// What the program holds of its tray icons: whether they are in the
/// notification area, and the handles of the icon images shown (0: none).
pub struct TrayState {
    added: bool,
    cpu_icon: isize,
    ram_icon: isize,
}

/// The view of a `TrayState`: (added, CPU icon handle, RAM icon handle).
pub type TrayView = (bool, isize, isize);

/// The handles among `a` and `b` that are not 0.
pub open spec fn live_handles(a: isize, b: isize) -> Seq<isize> {
    (if a != 0 {
        seq![a]
    } else {
        seq![]
    }) + (if b != 0 {
        seq![b]
    } else {
        seq![]
    })
}

/// The images among the ones that were created (`Some`) that are not 0.
pub open spec fn created_images(cpu: Option<isize>, ram: Option<isize>) -> Seq<isize> {
    live_handles(
        match cpu {
            Some(c) => c,
            None => 0,
        },
        match ram {
            Some(r) => r,
            None => 0,
        },
    )
}

/// What a tray update asks: the notification to send, and the images to
/// destroy.
pub struct TrayUpdate {
    pub op: NotifyOp,
    pub destroy: Vec<isize>,
}

impl View for TrayState {
    type V = TrayView;

    closed spec fn view(&self) -> TrayView {
        (self.added, self.cpu_icon, self.ram_icon)
    }
}

/// While the icons are not in the notification area no icon image is held.
pub open spec fn tray_wf(v: TrayView) -> bool {
    !v.0 ==> v.1 == 0 && v.2 == 0
}

/// Both new images are shown: the state after that, and the images to
/// destroy (those shown before).
pub open spec fn update_step(v: TrayView, cpu: isize, ram: isize) -> (TrayView, Seq<isize>) {
    ((true, cpu, ram), live_handles(v.1, v.2))
}

/// A removal: the state after it, and the images to destroy (those shown,
/// if the icons were in the notification area).
pub open spec fn remove_step(v: TrayView) -> (TrayView, Seq<isize>) {
    (
        (false, 0isize, 0isize),
        if v.0 {
            live_handles(v.1, v.2)
        } else {
            seq![]
        },
    )
}

/// One refresh of the tray icons, with the switch `show` and the images
/// that could be created (`None` where creating one failed or was not
/// tried). Icons off: a removal, and any image given is destroyed unshown.
/// Icons on with both images: they are shown (added the first time,
/// modified after) and the old ones destroyed. Icons on with an image
/// missing: nothing changes and the image that was created is destroyed.
pub open spec fn tray_step(v: TrayView, show: bool, cpu: Option<isize>, ram: Option<isize>) -> (
    TrayView,
    Seq<isize>,
    NotifyOp,
) {
    if !show {
        (
            remove_step(v).0,
            remove_step(v).1 + created_images(cpu, ram),
            if v.0 {
                NotifyOp::Delete
            } else {
                NotifyOp::Nothing
            },
        )
    } else {
        match (cpu, ram) {
            (Some(c), Some(r)) => (
                update_step(v, c, r).0,
                update_step(v, c, r).1,
                if v.0 {
                    NotifyOp::Modify
                } else {
                    NotifyOp::Add
                },
            ),
            _ => (v, created_images(cpu, ram), NotifyOp::Nothing),
        }
    }
}

impl TrayState {
    /// No icon image is held while the icons are not in the notification area.
    #[verifier::type_invariant]
    spec fn inv(self) -> bool {
        tray_wf(self@)
    }

    pub fn new() -> (s: Self)
        ensures
            s@ == (false, 0isize, 0isize),
    {
        TrayState { added: false, cpu_icon: 0, ram_icon: 0 }
    }

    pub fn is_added(&self) -> (r: bool)
        ensures
            r == self@.0,
            tray_wf(self@),
    {
        proof {
            use_type_invariant(self);
        }
        self.added
    }

    fn held(&self) -> (d: Vec<isize>)
        ensures
            d@ == live_handles(self@.1, self@.2),
    {
        let mut d: Vec<isize> = Vec::new();
        if self.cpu_icon != 0 {
            d.push(self.cpu_icon);
        }
        if self.ram_icon != 0 {
            d.push(self.ram_icon);
        }
        assert(d@ =~= live_handles(self@.1, self@.2));
        d
    }

    fn push_created(d: &mut Vec<isize>, img: Option<isize>)
        ensures
            final(d)@ == old(d)@ + live_handles(
                match img {
                    Some(c) => c,
                    None => 0,
                },
                0,
            ),
    {
        if let Some(c) = img {
            if c != 0 {
                d.push(c);
            }
        }
        assert(d@ =~= old(d)@ + live_handles(
            match img {
                Some(c) => c,
                None => 0,
            },
            0,
        ));
    }

    /// One refresh of the tray icons; see `tray_step`. `show` is the tray
    /// switch; `cpu_icon` and `ram_icon` are the images created for this
    /// refresh (the program creates them only while the switch is on, the RAM
    /// image only once the CPU image exists).
    pub fn update_tray(&mut self, show: bool, cpu_icon: Option<isize>, ram_icon: Option<isize>) -> (u:
        TrayUpdate)
        ensures
            tray_wf(old(self)@),
            tray_wf(final(self)@),
            (final(self)@, u.destroy@, u.op) == tray_step(old(self)@, show, cpu_icon, ram_icon),
            !show ==> !final(self)@.0 && final(self)@.1 == 0 && final(self)@.2 == 0 && u.op == (
            if old(self)@.0 {
                NotifyOp::Delete
            } else {
                NotifyOp::Nothing
            }),
            show && cpu_icon is Some && ram_icon is Some ==> final(self)@ == (
                true,
                cpu_icon->0,
                ram_icon->0,
            ) && u.destroy@ == live_handles(old(self)@.1, old(self)@.2) && u.op == (if old(
                self,
            )@.0 {
                NotifyOp::Modify
            } else {
                NotifyOp::Add
            }),
            show && !(cpu_icon is Some && ram_icon is Some) ==> final(self)@ == old(self)@
                && u.op == NotifyOp::Nothing,
    {
        proof {
            use_type_invariant(&*self);
        }
        let mut destroy: Vec<isize> = Vec::new();
        Self::push_created(&mut destroy, cpu_icon);
        Self::push_created(&mut destroy, ram_icon);
        let ghost created = destroy@;
        assert(created =~= created_images(cpu_icon, ram_icon));
        if !show {
            let op = if self.added {
                NotifyOp::Delete
            } else {
                NotifyOp::Nothing
            };
            let removed = self.remove_tray();
            let mut all: Vec<isize> = match removed {
                Some(d) => d,
                None => Vec::new(),
            };
            let ghost before = all@;
            all.append(&mut destroy);
            assert(all@ =~= before + created);
            return TrayUpdate { op, destroy: all };
        }
        match (cpu_icon, ram_icon) {
            (Some(c), Some(r)) => {
                let op = if self.added {
                    NotifyOp::Modify
                } else {
                    NotifyOp::Add
                };
                let old_images = self.held();
                *self = TrayState { added: true, cpu_icon: c, ram_icon: r };
                TrayUpdate { op, destroy: old_images }
            },
            _ => TrayUpdate { op: NotifyOp::Nothing, destroy },
        }
    }

    /// Takes the icons out of the notification area if they are in it:
    /// `Some` of the images to destroy then; `None`, with nothing changed,
    /// otherwise.
    pub fn remove_tray(&mut self) -> (r: Option<Vec<isize>>)
        ensures
            tray_wf(old(self)@),
            final(self)@ == remove_step(old(self)@).0,
            old(self)@.0 ==> (r matches Some(d) && d@ == remove_step(old(self)@).1),
            !old(self)@.0 ==> r is None,
    {
        proof {
            use_type_invariant(&*self);
        }
        if !self.added {
            return None;
        }
        let destroy = self.held();
        *self = TrayState { added: false, cpu_icon: 0, ram_icon: 0 };
        Some(destroy)
    }
}

/// A call on the tray icons: a refresh, or a removal.
pub enum TrayOp {
    Update(bool, Option<isize>, Option<isize>),
    Remove,
}

/// The state after `ops`, starting with no icons, and every image handed
/// back for destruction on the way, in order.
pub open spec fn run_tray(ops: Seq<TrayOp>) -> (TrayView, Seq<isize>)
    decreases ops.len(),
{
    if ops.len() == 0 {
        ((false, 0isize, 0isize), seq![])
    } else {
        let (v, destroyed) = run_tray(ops.drop_last());
        let (v2, d) = match ops.last() {
            TrayOp::Update(show, c, r) => {
                let t = tray_step(v, show, c, r);
                (t.0, t.1)
            },
            TrayOp::Remove => remove_step(v),
        };
        (v2, destroyed + d)
    }
}

/// Every image created for a refresh, in order.
pub open spec fn images_given(ops: Seq<TrayOp>) -> Seq<isize>
    decreases ops.len(),
{
    if ops.len() == 0 {
        seq![]
    } else {
        images_given(ops.drop_last()) + match ops.last() {
            TrayOp::Update(_, c, r) => created_images(c, r),
            TrayOp::Remove => seq![],
        }
    }
}

/// No icon image leaks and none is destroyed twice: over any run of
/// refreshes (with the switch on or off, and with images that could or could
/// not all be created) and removals, the images created are exactly those
/// handed back for destruction plus those still shown, counted with
/// multiplicity; and no image is held while the icons are not in the
/// notification area.
pub proof fn lemma_no_icon_leak(ops: Seq<TrayOp>)
    ensures
        tray_wf(run_tray(ops).0),
        images_given(ops).to_multiset() == run_tray(ops).1.to_multiset().add(
            live_handles(run_tray(ops).0.1, run_tray(ops).0.2).to_multiset(),
        ),
    decreases ops.len(),
{
    broadcast use vstd::seq_lib::lemma_multiset_commutative;
    broadcast use vstd::multiset::group_multiset_axioms;

    if ops.len() == 0 {
        assert(live_handles(0, 0) =~= Seq::<isize>::empty());
        assert(images_given(ops).to_multiset() =~= Multiset::<isize>::empty());
        assert(run_tray(ops).1.to_multiset() =~= Multiset::<isize>::empty());
    } else {
        lemma_no_icon_leak(ops.drop_last());
        let (v, destroyed) = run_tray(ops.drop_last());
        let g = images_given(ops.drop_last());
        assert(live_handles(0, 0) =~= Seq::<isize>::empty());
        match ops.last() {
            TrayOp::Update(show, c, r) => {
                let given = created_images(c, r);
                assert(images_given(ops).to_multiset() =~= g.to_multiset().add(given.to_multiset()));
                if !show {
                    if v.0 {
                        assert(run_tray(ops).1 =~= destroyed + (live_handles(v.1, v.2) + given));
                    } else {
                        assert(live_handles(v.1, v.2) =~= Seq::<isize>::empty());
                        assert(run_tray(ops).1 =~= destroyed + (Seq::<isize>::empty() + given));
                        assert(Seq::<isize>::empty() + given =~= given);
                    }
                } else {
                    match (c, r) {
                        (Some(ci), Some(ri)) => {
                            assert(given == live_handles(ci, ri));
                            assert(run_tray(ops).1 =~= destroyed + live_handles(v.1, v.2));
                        },
                        _ => {
                            assert(run_tray(ops).1 =~= destroyed + given);
                        },
                    }
                }
            },
            TrayOp::Remove => {
                assert(images_given(ops) =~= g);
                if !v.0 {
                    assert(live_handles(v.1, v.2) =~= Seq::<isize>::empty());
                    assert(run_tray(ops).1 =~= destroyed);
                } else {
                    assert(run_tray(ops).1 =~= destroyed + live_handles(v.1, v.2));
                }
            },
        }
    }
}

} // verus!
