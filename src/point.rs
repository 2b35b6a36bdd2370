//! A point in the plane with integer coordinates.

use vstd::prelude::*;

verus! {

#[derive(Debug)]
pub struct Point {
    pub x: i32,
    pub y: i32,
}

impl Point {
    pub fn new(x: i32, y: i32) -> (p: Point)
        ensures
            p.x == x,
            p.y == y,
    {
        Point { x: x, y: y }
    }

    pub fn from_pair(pair: (i32, i32)) -> (p: Point)
        ensures
            p.x == pair.0,
            p.y == pair.1,
    {
        Point { x: pair.0, y: pair.1 }
    }

    pub fn into_pair(self) -> (r: (i32, i32))
        ensures
            r == (self.x, self.y),
    {
        (self.x, self.y)
    }

    pub fn move_to(&mut self, x: i32, y: i32)
        ensures
            final(self).x == x,
            final(self).y == y,
    {
        self.x = x;
        self.y = y;
    }

    pub fn x(&self) -> (r: &i32)
        ensures
            *r == self.x,
    {
        &self.x
    }

    pub fn x_mut(&mut self) -> (r: &mut i32)
        ensures
            *r == old(self).x,
            final(self).y == old(self).y,
            final(self).x == *final(r),
    {
        &mut self.x
    }

    pub fn y(&self) -> (r: &i32)
        ensures
            *r == self.y,
    {
        &self.y
    }

    pub fn y_mut(&mut self) -> (r: &mut i32)
        ensures
            *r == old(self).y,
            final(self).x == old(self).x,
            final(self).y == *final(r),
    {
        &mut self.y
    }
}

} // verus!
