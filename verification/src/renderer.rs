//! What the overlay's painting decides: the client area it paints, the
//! snapshot of the metrics that it draws from, the gap between per-core bars,
//! and what becomes of the drawing resources after a frame.

use std::collections::VecDeque;
use vstd::prelude::*;
use crate::metrics::{MetricsState, HISTORY_LEN};
use crate::window::Rect;

verus! {

/// `D2DERR_RECREATE_TARGET` (0x8899000C as a signed `HRESULT`): the Direct2D
/// device was lost and the render target must be created again.
pub const D2DERR_RECREATE_TARGET: i32 = -2003238900i32;

/// A copy of the metrics, taken so that drawing holds no lock.
pub struct MetricsSnapshot<V> {
    pub cpu: V,
    pub ram: V,
    pub cpu_arr: [V; HISTORY_LEN],
    pub ram_arr: [V; HISTORY_LEN],
    pub cpu_cores: Vec<V>,
}

/// What becomes of a frame once drawing has ended.
#[derive(Clone, Copy, Debug, PartialEq, Eq, Structural)]
pub enum FrameOutcome {
    /// Drawn; the resources are kept.
    Drawn,
    /// The device was lost: the resources are dropped, to be created again
    /// on the next paint, and painting reports no error.
    RecreateResources,
    /// Drawing failed with this code; the resources are kept and the error
    /// is reported.
    Failed(i32),
}

/// The overlay's painter.
pub struct Renderer;

/// A history laid out in a fixed array: its samples first, `zero` after.
pub open spec fn padded<V>(history: Seq<V>, zero: V) -> Seq<V> {
    history + Seq::new((HISTORY_LEN - history.len()) as nat, |i: int| zero)
}

impl Renderer {
    /// The size of the client area `r`; `None` where it is empty (zero
    /// width or height), and nothing is painted.
    pub fn client_size(r: Rect) -> (s: Option<(u32, u32)>)
        requires
            i32::MIN <= r.right - r.left <= i32::MAX,
            i32::MIN <= r.bottom - r.top <= i32::MAX,
        ensures
            s == if (r.right - r.left) as u32 == 0 || (r.bottom - r.top) as u32 == 0 {
                None
            } else {
                Some(((r.right - r.left) as u32, (r.bottom - r.top) as u32))
            },
    {
        let width: u32 = (r.right - r.left) as u32;
        let height: u32 = (r.bottom - r.top) as u32;
        if width == 0 || height == 0 {
            None
        } else {
            Some((width, height))
        }
    }

    /// What to do after `EndDraw` returned `result`: keep the resources on
    /// success, drop them when the device was lost, report any other error.
    pub fn end_draw_outcome(result: Result<(), i32>) -> (o: FrameOutcome)
        ensures
            o == match result {
                Ok(()) => FrameOutcome::Drawn,
                Err(code) => if code == D2DERR_RECREATE_TARGET {
                    FrameOutcome::RecreateResources
                } else {
                    FrameOutcome::Failed(code)
                },
            },
    {
        match result {
            Ok(()) => FrameOutcome::Drawn,
            Err(code) => if code == D2DERR_RECREATE_TARGET {
                FrameOutcome::RecreateResources
            } else {
                FrameOutcome::Failed(code)
            },
        }
    }

    /// The gap between per-core bars, in half pixels: half a pixel when
    /// there are more than 16 cores, one pixel otherwise.
    pub fn core_gap_halves(num_cores: usize) -> (g: u32)
        ensures
            g == if num_cores > 16 {
                1u32
            } else {
                2u32
            },
    {
        if num_cores > 16 {
            1
        } else {
            2
        }
    }

    fn copy_history<V: Copy>(history: &VecDeque<V>, zero: V) -> (a: [V; HISTORY_LEN])
        requires
            history@.len() <= HISTORY_LEN,
        ensures
            a@ == padded(history@, zero),
    {
        let mut a: [V; HISTORY_LEN] = vstd::array::array_fill_for_copy_types(zero);
        let mut i: usize = 0;
        while i < history.len()
            invariant
                i <= history@.len() <= HISTORY_LEN,
                a@.len() == HISTORY_LEN,
                forall|j: int| 0 <= j < i ==> a@[j] == history@[j],
                forall|j: int| i <= j < HISTORY_LEN ==> a@[j] == zero,
            decreases history@.len() - i,
        {
            a[i] = history[i];
            i = i + 1;
        }
        assert(a@ =~= padded(history@, zero));
        a
    }

    /// A copy of the metrics to draw from: the current loads, both
    /// histories laid out in arrays (`zero` past their end), and the
    /// per-core loads.
    pub fn snapshot<V: Copy>(state: &MetricsState<V>, zero: V) -> (s: MetricsSnapshot<V>)
        requires
            state.cpu_history@.len() <= HISTORY_LEN,
            state.ram_history@.len() <= HISTORY_LEN,
        ensures
            s.cpu == state.cpu_usage,
            s.ram == state.ram_usage_pct,
            s.cpu_arr@ == padded(state.cpu_history@, zero),
            s.ram_arr@ == padded(state.ram_history@, zero),
            s.cpu_cores@ == state.cpu_cores_usage@,
    {
        let mut cores: Vec<V> = Vec::new();
        let mut i: usize = 0;
        while i < state.cpu_cores_usage.len()
            invariant
                i <= state.cpu_cores_usage@.len(),
                cores@ == state.cpu_cores_usage@.take(i as int),
            decreases state.cpu_cores_usage@.len() - i,
        {
            cores.push(state.cpu_cores_usage[i]);
            i = i + 1;
            assert(cores@ =~= state.cpu_cores_usage@.take(i as int));
        }
        assert(state.cpu_cores_usage@.take(i as int) =~= state.cpu_cores_usage@);
        MetricsSnapshot {
            cpu: state.cpu_usage,
            ram: state.ram_usage_pct,
            cpu_arr: Self::copy_history(&state.cpu_history, zero),
            ram_arr: Self::copy_history(&state.ram_history, zero),
            cpu_cores: cores,
        }
    }
}

/// A snapshot of a well-formed state holds both histories exactly, with no
/// padding.
pub proof fn lemma_snapshot_of_full_history<V>(history: Seq<V>, zero: V)
    requires
        history.len() == HISTORY_LEN,
    ensures
        padded(history, zero) == history,
{
    assert(padded(history, zero) =~= history);
}

} // verus!
