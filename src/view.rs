use vstd::prelude::*;

verus! {

/// `a / d` rounded toward zero, as Rust's integer division does it.
pub open spec fn div_toward_zero(a: int, d: int) -> int
    recommends
        d > 0,
{
    if a >= 0 {
        a / d
    } else {
        -((-a) / d)
    }
}

/// A yaw angle in whole degrees, brought back into `0..=360` after a turn.
pub open spec fn normalized_yaw(v: int) -> int {
    if v == 360 {
        360
    } else {
        v % 360
    }
}

/// A pitch angle in whole degrees, held between straight down and straight up.
pub open spec fn clamped_pitch(v: int) -> int {
    if v > 180 {
        180
    } else if v < 0 {
        0
    } else {
        v
    }
}

/// Horizontal view angle in degrees.
#[derive(Debug, Copy, Clone)]
pub struct Yaw(pub i32);

/// Vertical view angle in degrees; 90 looks at the horizon.
#[derive(Debug, Copy, Clone)]
pub struct Pitch(pub i32);

impl Yaw {
    /// Turns by `amt` degrees and wraps the angle into `0..=360`.
    pub fn rot(&mut self, amt: i32)
        requires
            i32::MIN <= old(self).0 + amt <= i32::MAX,
        ensures
            final(self).0 == normalized_yaw(old(self).0 + amt),
            0 <= final(self).0 <= 360,
    {
        self.0 = self.0 + amt;
        if self.0 < -360 || self.0 > 360 {
            self.0 = self.0 % 360;
        }
        if self.0 < 0 {
            self.0 = self.0 + 360;
        }
    }
}

impl Default for Yaw {
    fn default() -> (r: Self)
        ensures
            r.0 == 0,
    {
        Yaw(0)
    }
}

impl Pitch {
    /// Tilts by `amt` degrees and clamps the angle into `0..=180`.
    pub fn rot(&mut self, amt: i32)
        requires
            i32::MIN <= old(self).0 + amt <= i32::MAX,
        ensures
            final(self).0 == clamped_pitch(old(self).0 + amt),
            0 <= final(self).0 <= 180,
    {
        self.0 = self.0 + amt;
        if self.0 > 180 {
            self.0 = 180;
        } else if self.0 < 0 {
            self.0 = 0;
        }
    }
}

impl Default for Pitch {
    fn default() -> (r: Self)
        ensures
            r.0 == 90,
    {
        Pitch(90)
    }
}

/// Mouse-driven view direction: the window centre and the two view angles.
#[derive(Debug)]
pub struct ViewDirection {
    pub center: (i32, i32),
    pub yaw: Yaw,
    pub pitch: Pitch,
    pub fov: u32,
}

impl ViewDirection {
    /// A view at yaw 0 and pitch 90, centred on a window of `size`.
    pub fn new(size: (i32, i32)) -> (r: Self)
        ensures
            r.center.0 == div_toward_zero(size.0 as int, 2),
            r.center.1 == div_toward_zero(size.1 as int, 2),
            r.yaw.0 == 0,
            r.pitch.0 == 90,
            r.fov == 90,
    {
        ViewDirection {
            center: (size.0 / 2, size.1 / 2),
            yaw: Yaw::default(),
            pitch: Pitch::default(),
            fov: 90,
        }
    }

    /// Re-centres the view on a window of the new size; the angles stay.
    pub fn resize(&mut self, new: (i32, i32))
        ensures
            final(self).center.0 == div_toward_zero(new.0 as int, 2),
            final(self).center.1 == div_toward_zero(new.1 as int, 2),
            final(self).yaw == old(self).yaw,
            final(self).pitch == old(self).pitch,
            final(self).fov == old(self).fov,
    {
        self.center = (new.0 / 2, new.1 / 2);
    }

    /// Turns the view toward the pointer at `new`: an eighth of a degree per
    /// pixel away from the centre, rightward raising the yaw and upward the
    /// pitch.
    pub fn update(&mut self, new: (i32, i32))
        requires
            i32::MIN <= new.0 - old(self).center.0 <= i32::MAX,
            i32::MIN <= old(self).center.1 - new.1 <= i32::MAX,
            i32::MIN <= old(self).yaw.0 + div_toward_zero(new.0 - old(self).center.0, 8)
                <= i32::MAX,
            i32::MIN <= old(self).pitch.0 + div_toward_zero(old(self).center.1 - new.1, 8)
                <= i32::MAX,
        ensures
            final(self).yaw.0 == normalized_yaw(
                old(self).yaw.0 + div_toward_zero(new.0 - old(self).center.0, 8),
            ),
            final(self).pitch.0 == clamped_pitch(
                old(self).pitch.0 + div_toward_zero(old(self).center.1 - new.1, 8),
            ),
            final(self).center == old(self).center,
            final(self).fov == old(self).fov,
    {
        let dx: i32 = (new.0 - self.center.0) / 8;
        let dy: i32 = (self.center.1 - new.1) / 8;
        self.yaw.rot(dx);
        self.pitch.rot(dy);
    }
}

} // verus!
