use vstd::prelude::*;

verus! {

/// A camera: where the eye is, the point it looks at and the up direction,
/// with a flag that records whether the camera moved since the flag was
/// last read. The vector type `V` is the caller's.
pub struct Camera<V> {
    pub eye: V,
    pub center: V,
    pub up: V,
    has_changed: bool,
}

/// What a camera is, the record of movement included.
pub struct CameraView<V> {
    pub eye: V,
    pub center: V,
    pub up: V,
    pub changed: bool,
}

impl<V> View for Camera<V> {
    type V = CameraView<V>;

    closed spec fn view(&self) -> CameraView<V> {
        CameraView { eye: self.eye, center: self.center, up: self.up, changed: self.has_changed }
    }
}

impl<V> Camera<V> {
    /// A camera at `eye` that looks at `center`. A new camera counts as
    /// moved.
    pub fn new(eye: V, center: V, up: V) -> (camera: Camera<V>)
        ensures
            camera@ == (CameraView { eye, center, up, changed: true }),
    {
        Camera { eye, center, up, has_changed: true }
    }

    /// Moves the eye to `eye` and records that the camera moved.
    pub fn move_eye(&mut self, eye: V)
        ensures
            final(self)@ == (CameraView { eye, changed: true, ..old(self)@ }),
    {
        self.eye = eye;
        self.has_changed = true;
    }

    /// Reports whether the camera moved since the last call, and resets the
    /// record.
    pub fn is_changed(&mut self) -> (moved: bool)
        ensures
            moved == old(self)@.changed,
            final(self)@ == (CameraView { changed: false, ..old(self)@ }),
    {
        if self.has_changed {
            self.has_changed = false;
            return true;
        }
        false
    }
}

} // verus!
