//! Cameras and their pictures.

use vstd::prelude::*;

verus! {

/// One camera, as the surveillance server names it.
#[derive(Debug, PartialEq, Eq)]
pub struct Monitor {
    /// The identifier the server assigned; unique within a group.
    pub id: String,
}

impl View for Monitor {
    type V = Seq<char>;

    open spec fn view(&self) -> Seq<char> {
        self.id@
    }
}

impl Clone for Monitor {
    fn clone(&self) -> (copy: Self)
        ensures
            copy@ == self@,
    {
        Monitor { id: self.id.clone() }
    }
}

impl Monitor {
    /// The monitor that the server names `id`.
    pub fn new(id: String) -> (monitor: Self)
        ensures
            monitor@ == id@,
    {
        Monitor { id }
    }
}

/// The identifiers of a list of monitors, in the list's order.
pub open spec fn monitor_ids(monitors: Seq<Monitor>) -> Seq<Seq<char>> {
    monitors.map_values(|m: Monitor| m@)
}

/// A JPEG picture and the camera it came from, as plain mathematical values.
pub struct SnapshotView {
    pub monitor_id: Seq<char>,
    pub bytes: Seq<u8>,
}

/// One JPEG picture taken from one camera.
#[derive(Debug, PartialEq, Eq)]
pub struct Snapshot {
    /// The camera the picture came from.
    pub monitor_id: String,
    /// The picture, as the server sent it.
    pub bytes: Vec<u8>,
}

impl View for Snapshot {
    type V = SnapshotView;

    open spec fn view(&self) -> SnapshotView {
        SnapshotView { monitor_id: self.monitor_id@, bytes: self.bytes@ }
    }
}

impl Clone for Snapshot {
    fn clone(&self) -> (copy: Self)
        ensures
            copy@ == self@,
    {
        let bytes = self.bytes.clone();
        assert(bytes@ =~= self.bytes@);
        Snapshot { monitor_id: self.monitor_id.clone(), bytes }
    }
}

impl Snapshot {
    /// The picture `bytes`, taken from the monitor `monitor_id`.
    pub fn new(monitor_id: String, bytes: Vec<u8>) -> (snapshot: Self)
        ensures
            snapshot@ == (SnapshotView { monitor_id: monitor_id@, bytes: bytes@ }),
    {
        Snapshot { monitor_id, bytes }
    }

    /// The number of bytes in the picture.
    pub fn len(&self) -> (n: usize)
        ensures
            n == self@.bytes.len(),
    {
        self.bytes.len()
    }
}

/// The views of a list of snapshots, in the list's order.
pub open spec fn snapshot_views(snapshots: Seq<Snapshot>) -> Seq<SnapshotView> {
    snapshots.map_values(|s: Snapshot| s@)
}

} // verus!
