use vstd::prelude::*;

verus! {

/// Names one shape instance: the partition it lives in and its index there.
#[derive(Clone, Copy, PartialEq, Eq, Structural, Debug)]
pub enum ShapeHandle {
    Alpha(u32),
    Opaque(u32),
    Gui(u32),
}

/// The three independently ordered draw lists of a frame.
#[derive(Clone, Copy, PartialEq, Eq, Structural, Debug)]
pub enum Partition {
    Opaque,
    Alpha,
    Gui,
}

/// Shapes that neither follow the camera nor take fog overlay the scene;
/// the others are blended back to front when translucent, else drawn front
/// to back.
pub open spec fn spec_partition(alpha: bool, fog: bool, camera: bool) -> Partition {
    if !camera && !fog {
        Partition::Gui
    } else if alpha {
        Partition::Alpha
    } else {
        Partition::Opaque
    }
}

pub fn partition_of(alpha: bool, fog: bool, camera: bool) -> (r: Partition)
    ensures
        r == spec_partition(alpha, fog, camera),
{
    if !camera && !fog {
        Partition::Gui
    } else if alpha {
        Partition::Alpha
    } else {
        Partition::Opaque
    }
}

impl ShapeHandle {
    pub open spec fn partition(self) -> Partition {
        match self {
            ShapeHandle::Alpha(_) => Partition::Alpha,
            ShapeHandle::Opaque(_) => Partition::Opaque,
            ShapeHandle::Gui(_) => Partition::Gui,
        }
    }

    pub open spec fn index(self) -> u32 {
        match self {
            ShapeHandle::Alpha(i) => i,
            ShapeHandle::Opaque(i) => i,
            ShapeHandle::Gui(i) => i,
        }
    }
}

} // verus!
