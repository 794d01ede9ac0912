#![allow(non_snake_case)]
use vstd::prelude::*;
use crate::bits::{
    bits, get_bits, lemma_bits_of_with_bits, lemma_bits_of_with_other_bits, lemma_fits_mask, set_bits,
    with_bits,
};

verus! {

/// Left and right edges of a window (WIN0H / WIN1H): X2 in bits 0-7, X1 in bits 8-15.
#[derive(Clone, Copy, Debug, PartialEq, Eq, Structural)]
pub struct WindowHorizontalDimension {
    pub index: usize,
    pub value: u16,
}

impl WindowHorizontalDimension {
    /// A register holding zero.
    pub fn new(index: usize) -> (r: WindowHorizontalDimension)
        ensures
            r.value == 0,
            r.index == index,
    {
        WindowHorizontalDimension { index, value: 0 }
    }

    /// The whole register.
    pub fn get_register(&self) -> (r: u16)
        ensures
            r == self.value,
    {
        self.value
    }

    /// Writes the whole register from the low bits of `value`.
    pub fn set_register(&mut self, value: u32)
        ensures
            final(self).value == value as u16,
            final(self).index == old(self).index,
    {
        self.value = value as u16;
    }

    /// Bits 7..0.
    pub open spec fn X2(self) -> u8 {
        bits(self.value as u32, 0, 8) as u8
    }

    /// Reads bits 7..0.
    pub fn get_X2(&self) -> (r: u8)
        ensures
            r == self.X2(),
            r < 256,
    {
        get_bits(self.value as u32, 0, 8) as u8
    }

    /// Writes bits 7..0 from the low bits of `value`; every other field keeps its value.
    pub fn set_X2(&mut self, value: u8)
        ensures
            final(self).value == with_bits(old(self).value as u32, 0, 8, value as u32) as u16,
            value < 256 ==> final(self).X2() == value,
            final(self).X1() == old(self).X1(),
            final(self).index == old(self).index,
    {
        let old_value = self.value;
        self.value = set_bits(self.value as u32, 0, 8, value as u32) as u16;
        proof {
            lemma_bits_of_with_bits(old_value as u32, 0, 8, value as u32);
            if value < 256 {
                lemma_fits_mask(value as u32, 8);
            }
            lemma_bits_of_with_other_bits(old_value as u32, 0, 8, value as u32, 8, 8);
        }
    }

    /// Bits 15..8.
    pub open spec fn X1(self) -> u8 {
        bits(self.value as u32, 8, 8) as u8
    }

    /// Reads bits 15..8.
    pub fn get_X1(&self) -> (r: u8)
        ensures
            r == self.X1(),
            r < 256,
    {
        get_bits(self.value as u32, 8, 8) as u8
    }

    /// Writes bits 15..8 from the low bits of `value`; every other field keeps its value.
    pub fn set_X1(&mut self, value: u8)
        ensures
            final(self).value == with_bits(old(self).value as u32, 8, 8, value as u32) as u16,
            value < 256 ==> final(self).X1() == value,
            final(self).X2() == old(self).X2(),
            final(self).index == old(self).index,
    {
        let old_value = self.value;
        self.value = set_bits(self.value as u32, 8, 8, value as u32) as u16;
        proof {
            lemma_bits_of_with_bits(old_value as u32, 8, 8, value as u32);
            if value < 256 {
                lemma_fits_mask(value as u32, 8);
            }
            lemma_bits_of_with_other_bits(old_value as u32, 8, 8, value as u32, 0, 8);
        }
    }
}

/// Top and bottom edges of a window (WIN0V / WIN1V): Y2 in bits 0-7, Y1 in bits 8-15.
#[derive(Clone, Copy, Debug, PartialEq, Eq, Structural)]
pub struct WindowVerticalDimension {
    pub index: usize,
    pub value: u16,
}

impl WindowVerticalDimension {
    /// A register holding zero.
    pub fn new(index: usize) -> (r: WindowVerticalDimension)
        ensures
            r.value == 0,
            r.index == index,
    {
        WindowVerticalDimension { index, value: 0 }
    }

    /// The whole register.
    pub fn get_register(&self) -> (r: u16)
        ensures
            r == self.value,
    {
        self.value
    }

    /// Writes the whole register from the low bits of `value`.
    pub fn set_register(&mut self, value: u32)
        ensures
            final(self).value == value as u16,
            final(self).index == old(self).index,
    {
        self.value = value as u16;
    }

    /// Bits 7..0.
    pub open spec fn Y2(self) -> u8 {
        bits(self.value as u32, 0, 8) as u8
    }

    /// Reads bits 7..0.
    pub fn get_Y2(&self) -> (r: u8)
        ensures
            r == self.Y2(),
            r < 256,
    {
        get_bits(self.value as u32, 0, 8) as u8
    }

    /// Writes bits 7..0 from the low bits of `value`; every other field keeps its value.
    pub fn set_Y2(&mut self, value: u8)
        ensures
            final(self).value == with_bits(old(self).value as u32, 0, 8, value as u32) as u16,
            value < 256 ==> final(self).Y2() == value,
            final(self).Y1() == old(self).Y1(),
            final(self).index == old(self).index,
    {
        let old_value = self.value;
        self.value = set_bits(self.value as u32, 0, 8, value as u32) as u16;
        proof {
            lemma_bits_of_with_bits(old_value as u32, 0, 8, value as u32);
            if value < 256 {
                lemma_fits_mask(value as u32, 8);
            }
            lemma_bits_of_with_other_bits(old_value as u32, 0, 8, value as u32, 8, 8);
        }
    }

    /// Bits 15..8.
    pub open spec fn Y1(self) -> u8 {
        bits(self.value as u32, 8, 8) as u8
    }

    /// Reads bits 15..8.
    pub fn get_Y1(&self) -> (r: u8)
        ensures
            r == self.Y1(),
            r < 256,
    {
        get_bits(self.value as u32, 8, 8) as u8
    }

    /// Writes bits 15..8 from the low bits of `value`; every other field keeps its value.
    pub fn set_Y1(&mut self, value: u8)
        ensures
            final(self).value == with_bits(old(self).value as u32, 8, 8, value as u32) as u16,
            value < 256 ==> final(self).Y1() == value,
            final(self).Y2() == old(self).Y2(),
            final(self).index == old(self).index,
    {
        let old_value = self.value;
        self.value = set_bits(self.value as u32, 8, 8, value as u32) as u16;
        proof {
            lemma_bits_of_with_bits(old_value as u32, 8, 8, value as u32);
            if value < 256 {
                lemma_fits_mask(value as u32, 8);
            }
            lemma_bits_of_with_other_bits(old_value as u32, 8, 8, value as u32, 0, 8);
        }
    }
}

/// First attribute of a sprite: Y position, affine and double-size flags, graphics mode, colour depth and shape.
#[derive(Clone, Copy, Debug, PartialEq, Eq, Structural)]
pub struct ObjAttribute0 {
    pub index: usize,
    pub value: u16,
}

impl ObjAttribute0 {
    /// A register holding zero.
    pub fn new(index: usize) -> (r: ObjAttribute0)
        ensures
            r.value == 0,
            r.index == index,
    {
        ObjAttribute0 { index, value: 0 }
    }

    /// The whole register.
    pub fn get_register(&self) -> (r: u16)
        ensures
            r == self.value,
    {
        self.value
    }

    /// Writes the whole register from the low bits of `value`.
    pub fn set_register(&mut self, value: u32)
        ensures
            final(self).value == value as u16,
            final(self).index == old(self).index,
    {
        self.value = value as u16;
    }

    /// Bits 7..0.
    pub open spec fn y_coordinate(self) -> u8 {
        bits(self.value as u32, 0, 8) as u8
    }

    /// Reads bits 7..0.
    pub fn get_y_coordinate(&self) -> (r: u8)
        ensures
            r == self.y_coordinate(),
            r < 256,
    {
        get_bits(self.value as u32, 0, 8) as u8
    }

    /// Writes bits 7..0 from the low bits of `value`; every other field keeps its value.
    pub fn set_y_coordinate(&mut self, value: u8)
        ensures
            final(self).value == with_bits(old(self).value as u32, 0, 8, value as u32) as u16,
            value < 256 ==> final(self).y_coordinate() == value,
            final(self).obj_mode() == old(self).obj_mode(),
            final(self).gfx_mode() == old(self).gfx_mode(),
            final(self).mosaic() == old(self).mosaic(),
            final(self).color_flag() == old(self).color_flag(),
            final(self).obj_shape() == old(self).obj_shape(),
            final(self).index == old(self).index,
    {
        let old_value = self.value;
        self.value = set_bits(self.value as u32, 0, 8, value as u32) as u16;
        proof {
            lemma_bits_of_with_bits(old_value as u32, 0, 8, value as u32);
            if value < 256 {
                lemma_fits_mask(value as u32, 8);
            }
            lemma_bits_of_with_other_bits(old_value as u32, 0, 8, value as u32, 8, 2);
            lemma_bits_of_with_other_bits(old_value as u32, 0, 8, value as u32, 10, 2);
            lemma_bits_of_with_other_bits(old_value as u32, 0, 8, value as u32, 12, 1);
            lemma_bits_of_with_other_bits(old_value as u32, 0, 8, value as u32, 13, 1);
            lemma_bits_of_with_other_bits(old_value as u32, 0, 8, value as u32, 14, 2);
        }
    }

    /// Bits 9..8.
    pub open spec fn obj_mode(self) -> u8 {
        bits(self.value as u32, 8, 2) as u8
    }

    /// Reads bits 9..8.
    pub fn get_obj_mode(&self) -> (r: u8)
        ensures
            r == self.obj_mode(),
            r < 4,
    {
        get_bits(self.value as u32, 8, 2) as u8
    }

    /// Writes bits 9..8 from the low bits of `value`; every other field keeps its value.
    pub fn set_obj_mode(&mut self, value: u8)
        ensures
            final(self).value == with_bits(old(self).value as u32, 8, 2, value as u32) as u16,
            value < 4 ==> final(self).obj_mode() == value,
            final(self).y_coordinate() == old(self).y_coordinate(),
            final(self).gfx_mode() == old(self).gfx_mode(),
            final(self).mosaic() == old(self).mosaic(),
            final(self).color_flag() == old(self).color_flag(),
            final(self).obj_shape() == old(self).obj_shape(),
            final(self).index == old(self).index,
    {
        let old_value = self.value;
        self.value = set_bits(self.value as u32, 8, 2, value as u32) as u16;
        proof {
            lemma_bits_of_with_bits(old_value as u32, 8, 2, value as u32);
            if value < 4 {
                lemma_fits_mask(value as u32, 2);
            }
            lemma_bits_of_with_other_bits(old_value as u32, 8, 2, value as u32, 0, 8);
            lemma_bits_of_with_other_bits(old_value as u32, 8, 2, value as u32, 10, 2);
            lemma_bits_of_with_other_bits(old_value as u32, 8, 2, value as u32, 12, 1);
            lemma_bits_of_with_other_bits(old_value as u32, 8, 2, value as u32, 13, 1);
            lemma_bits_of_with_other_bits(old_value as u32, 8, 2, value as u32, 14, 2);
        }
    }

    /// Bits 11..10.
    pub open spec fn gfx_mode(self) -> u8 {
        bits(self.value as u32, 10, 2) as u8
    }

    /// Reads bits 11..10.
    pub fn get_gfx_mode(&self) -> (r: u8)
        ensures
            r == self.gfx_mode(),
            r < 4,
    {
        get_bits(self.value as u32, 10, 2) as u8
    }

    /// Writes bits 11..10 from the low bits of `value`; every other field keeps its value.
    pub fn set_gfx_mode(&mut self, value: u8)
        ensures
            final(self).value == with_bits(old(self).value as u32, 10, 2, value as u32) as u16,
            value < 4 ==> final(self).gfx_mode() == value,
            final(self).y_coordinate() == old(self).y_coordinate(),
            final(self).obj_mode() == old(self).obj_mode(),
            final(self).mosaic() == old(self).mosaic(),
            final(self).color_flag() == old(self).color_flag(),
            final(self).obj_shape() == old(self).obj_shape(),
            final(self).index == old(self).index,
    {
        let old_value = self.value;
        self.value = set_bits(self.value as u32, 10, 2, value as u32) as u16;
        proof {
            lemma_bits_of_with_bits(old_value as u32, 10, 2, value as u32);
            if value < 4 {
                lemma_fits_mask(value as u32, 2);
            }
            lemma_bits_of_with_other_bits(old_value as u32, 10, 2, value as u32, 0, 8);
            lemma_bits_of_with_other_bits(old_value as u32, 10, 2, value as u32, 8, 2);
            lemma_bits_of_with_other_bits(old_value as u32, 10, 2, value as u32, 12, 1);
            lemma_bits_of_with_other_bits(old_value as u32, 10, 2, value as u32, 13, 1);
            lemma_bits_of_with_other_bits(old_value as u32, 10, 2, value as u32, 14, 2);
        }
    }

    /// Bits 12..12.
    pub open spec fn mosaic(self) -> u8 {
        bits(self.value as u32, 12, 1) as u8
    }

    /// Reads bits 12..12.
    pub fn get_mosaic(&self) -> (r: u8)
        ensures
            r == self.mosaic(),
            r < 2,
    {
        get_bits(self.value as u32, 12, 1) as u8
    }

    /// Writes bits 12..12 from the low bits of `value`; every other field keeps its value.
    pub fn set_mosaic(&mut self, value: u8)
        ensures
            final(self).value == with_bits(old(self).value as u32, 12, 1, value as u32) as u16,
            value < 2 ==> final(self).mosaic() == value,
            final(self).y_coordinate() == old(self).y_coordinate(),
            final(self).obj_mode() == old(self).obj_mode(),
            final(self).gfx_mode() == old(self).gfx_mode(),
            final(self).color_flag() == old(self).color_flag(),
            final(self).obj_shape() == old(self).obj_shape(),
            final(self).index == old(self).index,
    {
        let old_value = self.value;
        self.value = set_bits(self.value as u32, 12, 1, value as u32) as u16;
        proof {
            lemma_bits_of_with_bits(old_value as u32, 12, 1, value as u32);
            if value < 2 {
                lemma_fits_mask(value as u32, 1);
            }
            lemma_bits_of_with_other_bits(old_value as u32, 12, 1, value as u32, 0, 8);
            lemma_bits_of_with_other_bits(old_value as u32, 12, 1, value as u32, 8, 2);
            lemma_bits_of_with_other_bits(old_value as u32, 12, 1, value as u32, 10, 2);
            lemma_bits_of_with_other_bits(old_value as u32, 12, 1, value as u32, 13, 1);
            lemma_bits_of_with_other_bits(old_value as u32, 12, 1, value as u32, 14, 2);
        }
    }

    /// Bits 13..13.
    pub open spec fn color_flag(self) -> u8 {
        bits(self.value as u32, 13, 1) as u8
    }

    /// Reads bits 13..13.
    pub fn get_color_flag(&self) -> (r: u8)
        ensures
            r == self.color_flag(),
            r < 2,
    {
        get_bits(self.value as u32, 13, 1) as u8
    }

    /// Writes bits 13..13 from the low bits of `value`; every other field keeps its value.
    pub fn set_color_flag(&mut self, value: u8)
        ensures
            final(self).value == with_bits(old(self).value as u32, 13, 1, value as u32) as u16,
            value < 2 ==> final(self).color_flag() == value,
            final(self).y_coordinate() == old(self).y_coordinate(),
            final(self).obj_mode() == old(self).obj_mode(),
            final(self).gfx_mode() == old(self).gfx_mode(),
            final(self).mosaic() == old(self).mosaic(),
            final(self).obj_shape() == old(self).obj_shape(),
            final(self).index == old(self).index,
    {
        let old_value = self.value;
        self.value = set_bits(self.value as u32, 13, 1, value as u32) as u16;
        proof {
            lemma_bits_of_with_bits(old_value as u32, 13, 1, value as u32);
            if value < 2 {
                lemma_fits_mask(value as u32, 1);
            }
            lemma_bits_of_with_other_bits(old_value as u32, 13, 1, value as u32, 0, 8);
            lemma_bits_of_with_other_bits(old_value as u32, 13, 1, value as u32, 8, 2);
            lemma_bits_of_with_other_bits(old_value as u32, 13, 1, value as u32, 10, 2);
            lemma_bits_of_with_other_bits(old_value as u32, 13, 1, value as u32, 12, 1);
            lemma_bits_of_with_other_bits(old_value as u32, 13, 1, value as u32, 14, 2);
        }
    }

    /// Bits 15..14.
    pub open spec fn obj_shape(self) -> u8 {
        bits(self.value as u32, 14, 2) as u8
    }

    /// Reads bits 15..14.
    pub fn get_obj_shape(&self) -> (r: u8)
        ensures
            r == self.obj_shape(),
            r < 4,
    {
        get_bits(self.value as u32, 14, 2) as u8
    }

    /// Writes bits 15..14 from the low bits of `value`; every other field keeps its value.
    pub fn set_obj_shape(&mut self, value: u8)
        ensures
            final(self).value == with_bits(old(self).value as u32, 14, 2, value as u32) as u16,
            value < 4 ==> final(self).obj_shape() == value,
            final(self).y_coordinate() == old(self).y_coordinate(),
            final(self).obj_mode() == old(self).obj_mode(),
            final(self).gfx_mode() == old(self).gfx_mode(),
            final(self).mosaic() == old(self).mosaic(),
            final(self).color_flag() == old(self).color_flag(),
            final(self).index == old(self).index,
    {
        let old_value = self.value;
        self.value = set_bits(self.value as u32, 14, 2, value as u32) as u16;
        proof {
            lemma_bits_of_with_bits(old_value as u32, 14, 2, value as u32);
            if value < 4 {
                lemma_fits_mask(value as u32, 2);
            }
            lemma_bits_of_with_other_bits(old_value as u32, 14, 2, value as u32, 0, 8);
            lemma_bits_of_with_other_bits(old_value as u32, 14, 2, value as u32, 8, 2);
            lemma_bits_of_with_other_bits(old_value as u32, 14, 2, value as u32, 10, 2);
            lemma_bits_of_with_other_bits(old_value as u32, 14, 2, value as u32, 12, 1);
            lemma_bits_of_with_other_bits(old_value as u32, 14, 2, value as u32, 13, 1);
        }
    }
}

/// Second attribute of a sprite: X position, affine parameter group, flips and size.
#[derive(Clone, Copy, Debug, PartialEq, Eq, Structural)]
pub struct ObjAttribute1 {
    pub index: usize,
    pub value: u16,
}

impl ObjAttribute1 {
    /// A register holding zero.
    pub fn new(index: usize) -> (r: ObjAttribute1)
        ensures
            r.value == 0,
            r.index == index,
    {
        ObjAttribute1 { index, value: 0 }
    }

    /// The whole register.
    pub fn get_register(&self) -> (r: u16)
        ensures
            r == self.value,
    {
        self.value
    }

    /// Writes the whole register from the low bits of `value`.
    pub fn set_register(&mut self, value: u32)
        ensures
            final(self).value == value as u16,
            final(self).index == old(self).index,
    {
        self.value = value as u16;
    }

    /// Bits 8..0.
    pub open spec fn x_coordinate(self) -> u16 {
        bits(self.value as u32, 0, 9) as u16
    }

    /// Reads bits 8..0.
    pub fn get_x_coordinate(&self) -> (r: u16)
        ensures
            r == self.x_coordinate(),
            r < 512,
    {
        get_bits(self.value as u32, 0, 9) as u16
    }

    /// Writes bits 8..0 from the low bits of `value`; every other field keeps its value.
    pub fn set_x_coordinate(&mut self, value: u16)
        ensures
            final(self).value == with_bits(old(self).value as u32, 0, 9, value as u32) as u16,
            value < 512 ==> final(self).x_coordinate() == value,
            final(self).rotation_scaling_param() == old(self).rotation_scaling_param(),
            final(self).horizontal_flip() == old(self).horizontal_flip(),
            final(self).vertical_flip() == old(self).vertical_flip(),
            final(self).obj_size() == old(self).obj_size(),
            final(self).index == old(self).index,
    {
        let old_value = self.value;
        self.value = set_bits(self.value as u32, 0, 9, value as u32) as u16;
        proof {
            lemma_bits_of_with_bits(old_value as u32, 0, 9, value as u32);
            if value < 512 {
                lemma_fits_mask(value as u32, 9);
            }
            lemma_bits_of_with_other_bits(old_value as u32, 0, 9, value as u32, 9, 5);
            lemma_bits_of_with_other_bits(old_value as u32, 0, 9, value as u32, 12, 1);
            lemma_bits_of_with_other_bits(old_value as u32, 0, 9, value as u32, 13, 1);
            lemma_bits_of_with_other_bits(old_value as u32, 0, 9, value as u32, 14, 2);
        }
    }

    /// Bits 13..9.
    pub open spec fn rotation_scaling_param(self) -> u8 {
        bits(self.value as u32, 9, 5) as u8
    }

    /// Reads bits 13..9.
    pub fn get_rotation_scaling_param(&self) -> (r: u8)
        ensures
            r == self.rotation_scaling_param(),
            r < 32,
    {
        get_bits(self.value as u32, 9, 5) as u8
    }

    /// Writes bits 13..9 from the low bits of `value`; every other field keeps its value.
    pub fn set_rotation_scaling_param(&mut self, value: u8)
        ensures
            final(self).value == with_bits(old(self).value as u32, 9, 5, value as u32) as u16,
            value < 32 ==> final(self).rotation_scaling_param() == value,
            final(self).x_coordinate() == old(self).x_coordinate(),
            final(self).obj_size() == old(self).obj_size(),
            final(self).index == old(self).index,
    {
        let old_value = self.value;
        self.value = set_bits(self.value as u32, 9, 5, value as u32) as u16;
        proof {
            lemma_bits_of_with_bits(old_value as u32, 9, 5, value as u32);
            if value < 32 {
                lemma_fits_mask(value as u32, 5);
            }
            lemma_bits_of_with_other_bits(old_value as u32, 9, 5, value as u32, 0, 9);
            lemma_bits_of_with_other_bits(old_value as u32, 9, 5, value as u32, 14, 2);
        }
    }

    /// Bits 12..12.
    pub open spec fn horizontal_flip(self) -> u8 {
        bits(self.value as u32, 12, 1) as u8
    }

    /// Reads bits 12..12.
    pub fn get_horizontal_flip(&self) -> (r: u8)
        ensures
            r == self.horizontal_flip(),
            r < 2,
    {
        get_bits(self.value as u32, 12, 1) as u8
    }

    /// Writes bits 12..12 from the low bits of `value`; every other field keeps its value.
    pub fn set_horizontal_flip(&mut self, value: u8)
        ensures
            final(self).value == with_bits(old(self).value as u32, 12, 1, value as u32) as u16,
            value < 2 ==> final(self).horizontal_flip() == value,
            final(self).x_coordinate() == old(self).x_coordinate(),
            final(self).vertical_flip() == old(self).vertical_flip(),
            final(self).obj_size() == old(self).obj_size(),
            final(self).index == old(self).index,
    {
        let old_value = self.value;
        self.value = set_bits(self.value as u32, 12, 1, value as u32) as u16;
        proof {
            lemma_bits_of_with_bits(old_value as u32, 12, 1, value as u32);
            if value < 2 {
                lemma_fits_mask(value as u32, 1);
            }
            lemma_bits_of_with_other_bits(old_value as u32, 12, 1, value as u32, 0, 9);
            lemma_bits_of_with_other_bits(old_value as u32, 12, 1, value as u32, 13, 1);
            lemma_bits_of_with_other_bits(old_value as u32, 12, 1, value as u32, 14, 2);
        }
    }

    /// Bits 13..13.
    pub open spec fn vertical_flip(self) -> u8 {
        bits(self.value as u32, 13, 1) as u8
    }

    /// Reads bits 13..13.
    pub fn get_vertical_flip(&self) -> (r: u8)
        ensures
            r == self.vertical_flip(),
            r < 2,
    {
        get_bits(self.value as u32, 13, 1) as u8
    }

    /// Writes bits 13..13 from the low bits of `value`; every other field keeps its value.
    pub fn set_vertical_flip(&mut self, value: u8)
        ensures
            final(self).value == with_bits(old(self).value as u32, 13, 1, value as u32) as u16,
            value < 2 ==> final(self).vertical_flip() == value,
            final(self).x_coordinate() == old(self).x_coordinate(),
            final(self).horizontal_flip() == old(self).horizontal_flip(),
            final(self).obj_size() == old(self).obj_size(),
            final(self).index == old(self).index,
    {
        let old_value = self.value;
        self.value = set_bits(self.value as u32, 13, 1, value as u32) as u16;
        proof {
            lemma_bits_of_with_bits(old_value as u32, 13, 1, value as u32);
            if value < 2 {
                lemma_fits_mask(value as u32, 1);
            }
            lemma_bits_of_with_other_bits(old_value as u32, 13, 1, value as u32, 0, 9);
            lemma_bits_of_with_other_bits(old_value as u32, 13, 1, value as u32, 12, 1);
            lemma_bits_of_with_other_bits(old_value as u32, 13, 1, value as u32, 14, 2);
        }
    }

    /// Bits 15..14.
    pub open spec fn obj_size(self) -> u8 {
        bits(self.value as u32, 14, 2) as u8
    }

    /// Reads bits 15..14.
    pub fn get_obj_size(&self) -> (r: u8)
        ensures
            r == self.obj_size(),
            r < 4,
    {
        get_bits(self.value as u32, 14, 2) as u8
    }

    /// Writes bits 15..14 from the low bits of `value`; every other field keeps its value.
    pub fn set_obj_size(&mut self, value: u8)
        ensures
            final(self).value == with_bits(old(self).value as u32, 14, 2, value as u32) as u16,
            value < 4 ==> final(self).obj_size() == value,
            final(self).x_coordinate() == old(self).x_coordinate(),
            final(self).rotation_scaling_param() == old(self).rotation_scaling_param(),
            final(self).horizontal_flip() == old(self).horizontal_flip(),
            final(self).vertical_flip() == old(self).vertical_flip(),
            final(self).index == old(self).index,
    {
        let old_value = self.value;
        self.value = set_bits(self.value as u32, 14, 2, value as u32) as u16;
        proof {
            lemma_bits_of_with_bits(old_value as u32, 14, 2, value as u32);
            if value < 4 {
                lemma_fits_mask(value as u32, 2);
            }
            lemma_bits_of_with_other_bits(old_value as u32, 14, 2, value as u32, 0, 9);
            lemma_bits_of_with_other_bits(old_value as u32, 14, 2, value as u32, 9, 5);
            lemma_bits_of_with_other_bits(old_value as u32, 14, 2, value as u32, 12, 1);
            lemma_bits_of_with_other_bits(old_value as u32, 14, 2, value as u32, 13, 1);
        }
    }
}

/// Third attribute of a sprite: tile number, priority and palette bank.
#[derive(Clone, Copy, Debug, PartialEq, Eq, Structural)]
pub struct ObjAttribute2 {
    pub index: usize,
    pub value: u16,
}

impl ObjAttribute2 {
    /// A register holding zero.
    pub fn new(index: usize) -> (r: ObjAttribute2)
        ensures
            r.value == 0,
            r.index == index,
    {
        ObjAttribute2 { index, value: 0 }
    }

    /// The whole register.
    pub fn get_register(&self) -> (r: u16)
        ensures
            r == self.value,
    {
        self.value
    }

    /// Writes the whole register from the low bits of `value`.
    pub fn set_register(&mut self, value: u32)
        ensures
            final(self).value == value as u16,
            final(self).index == old(self).index,
    {
        self.value = value as u16;
    }

    /// Bits 9..0.
    pub open spec fn character_name(self) -> u16 {
        bits(self.value as u32, 0, 10) as u16
    }

    /// Reads bits 9..0.
    pub fn get_character_name(&self) -> (r: u16)
        ensures
            r == self.character_name(),
            r < 1024,
    {
        get_bits(self.value as u32, 0, 10) as u16
    }

    /// Writes bits 9..0 from the low bits of `value`; every other field keeps its value.
    pub fn set_character_name(&mut self, value: u16)
        ensures
            final(self).value == with_bits(old(self).value as u32, 0, 10, value as u32) as u16,
            value < 1024 ==> final(self).character_name() == value,
            final(self).priority_rel_to_bg() == old(self).priority_rel_to_bg(),
            final(self).palette_number() == old(self).palette_number(),
            final(self).index == old(self).index,
    {
        let old_value = self.value;
        self.value = set_bits(self.value as u32, 0, 10, value as u32) as u16;
        proof {
            lemma_bits_of_with_bits(old_value as u32, 0, 10, value as u32);
            if value < 1024 {
                lemma_fits_mask(value as u32, 10);
            }
            lemma_bits_of_with_other_bits(old_value as u32, 0, 10, value as u32, 10, 2);
            lemma_bits_of_with_other_bits(old_value as u32, 0, 10, value as u32, 12, 4);
        }
    }

    /// Bits 11..10.
    pub open spec fn priority_rel_to_bg(self) -> u8 {
        bits(self.value as u32, 10, 2) as u8
    }

    /// Reads bits 11..10.
    pub fn get_priority_rel_to_bg(&self) -> (r: u8)
        ensures
            r == self.priority_rel_to_bg(),
            r < 4,
    {
        get_bits(self.value as u32, 10, 2) as u8
    }

    /// Writes bits 11..10 from the low bits of `value`; every other field keeps its value.
    pub fn set_priority_rel_to_bg(&mut self, value: u8)
        ensures
            final(self).value == with_bits(old(self).value as u32, 10, 2, value as u32) as u16,
            value < 4 ==> final(self).priority_rel_to_bg() == value,
            final(self).character_name() == old(self).character_name(),
            final(self).palette_number() == old(self).palette_number(),
            final(self).index == old(self).index,
    {
        let old_value = self.value;
        self.value = set_bits(self.value as u32, 10, 2, value as u32) as u16;
        proof {
            lemma_bits_of_with_bits(old_value as u32, 10, 2, value as u32);
            if value < 4 {
                lemma_fits_mask(value as u32, 2);
            }
            lemma_bits_of_with_other_bits(old_value as u32, 10, 2, value as u32, 0, 10);
            lemma_bits_of_with_other_bits(old_value as u32, 10, 2, value as u32, 12, 4);
        }
    }

    /// Bits 15..12.
    pub open spec fn palette_number(self) -> u8 {
        bits(self.value as u32, 12, 4) as u8
    }

    /// Reads bits 15..12.
    pub fn get_palette_number(&self) -> (r: u8)
        ensures
            r == self.palette_number(),
            r < 16,
    {
        get_bits(self.value as u32, 12, 4) as u8
    }

    /// Writes bits 15..12 from the low bits of `value`; every other field keeps its value.
    pub fn set_palette_number(&mut self, value: u8)
        ensures
            final(self).value == with_bits(old(self).value as u32, 12, 4, value as u32) as u16,
            value < 16 ==> final(self).palette_number() == value,
            final(self).character_name() == old(self).character_name(),
            final(self).priority_rel_to_bg() == old(self).priority_rel_to_bg(),
            final(self).index == old(self).index,
    {
        let old_value = self.value;
        self.value = set_bits(self.value as u32, 12, 4, value as u32) as u16;
        proof {
            lemma_bits_of_with_bits(old_value as u32, 12, 4, value as u32);
            if value < 16 {
                lemma_fits_mask(value as u32, 4);
            }
            lemma_bits_of_with_other_bits(old_value as u32, 12, 4, value as u32, 0, 10);
            lemma_bits_of_with_other_bits(old_value as u32, 12, 4, value as u32, 10, 2);
        }
    }
}

/// A rotation/scaling parameter of a sprite affine group (PA-PD in OAM): a signed 8.8 fixed-point number.
#[derive(Clone, Copy, Debug, PartialEq, Eq, Structural)]
pub struct OBJRotScaleParam {
    pub index: usize,
    pub value: u16,
}

impl OBJRotScaleParam {
    /// A register holding zero.
    pub fn new(index: usize) -> (r: OBJRotScaleParam)
        ensures
            r.value == 0,
            r.index == index,
    {
        OBJRotScaleParam { index, value: 0 }
    }

    /// The whole register.
    pub fn get_register(&self) -> (r: u16)
        ensures
            r == self.value,
    {
        self.value
    }

    /// Writes the whole register from the low bits of `value`.
    pub fn set_register(&mut self, value: u32)
        ensures
            final(self).value == value as u16,
            final(self).index == old(self).index,
    {
        self.value = value as u16;
    }

    /// Bits 15..0.
    pub open spec fn aff_param(self) -> u16 {
        bits(self.value as u32, 0, 16) as u16
    }

    /// Reads bits 15..0.
    pub fn get_aff_param(&self) -> (r: u16)
        ensures
            r == self.aff_param(),
            r < 65536,
    {
        get_bits(self.value as u32, 0, 16) as u16
    }

    /// Writes bits 15..0 from the low bits of `value`; every other field keeps its value.
    pub fn set_aff_param(&mut self, value: u16)
        ensures
            final(self).value == with_bits(old(self).value as u32, 0, 16, value as u32) as u16,
            value < 65536 ==> final(self).aff_param() == value,
            final(self).index == old(self).index,
    {
        let old_value = self.value;
        self.value = set_bits(self.value as u32, 0, 16, value as u32) as u16;
        proof {
            lemma_bits_of_with_bits(old_value as u32, 0, 16, value as u32);
            if value < 65536 {
                lemma_fits_mask(value as u32, 16);
            }
        }
    }
}

/// What shows inside windows 0 and 1 (WININ): backgrounds, sprites and special effects of each.
#[derive(Clone, Copy, Debug, PartialEq, Eq, Structural)]
pub struct ControlWindowInside {
    pub value: u16,
}

impl ControlWindowInside {
    /// A register holding zero.
    pub fn new() -> (r: ControlWindowInside)
        ensures
            r.value == 0,
    {
        ControlWindowInside { value: 0 }
    }

    /// The whole register.
    pub fn get_register(&self) -> (r: u16)
        ensures
            r == self.value,
    {
        self.value
    }

    /// Writes the whole register from the low bits of `value`.
    pub fn set_register(&mut self, value: u32)
        ensures
            final(self).value == value as u16,
    {
        self.value = value as u16;
    }

    /// Bits 3..0.
    pub open spec fn window0_bg_enable(self) -> u8 {
        bits(self.value as u32, 0, 4) as u8
    }

    /// Reads bits 3..0.
    pub fn get_window0_bg_enable(&self) -> (r: u8)
        ensures
            r == self.window0_bg_enable(),
            r < 16,
    {
        get_bits(self.value as u32, 0, 4) as u8
    }

    /// Writes bits 3..0 from the low bits of `value`; every other field keeps its value.
    pub fn set_window0_bg_enable(&mut self, value: u8)
        ensures
            final(self).value == with_bits(old(self).value as u32, 0, 4, value as u32) as u16,
            value < 16 ==> final(self).window0_bg_enable() == value,
            final(self).window0_obj_enable() == old(self).window0_obj_enable(),
            final(self).window0_sfx_enable() == old(self).window0_sfx_enable(),
            final(self).window1_bg_enable() == old(self).window1_bg_enable(),
            final(self).window1_obj_enable() == old(self).window1_obj_enable(),
            final(self).window1_sfx_enable() == old(self).window1_sfx_enable(),
    {
        let old_value = self.value;
        self.value = set_bits(self.value as u32, 0, 4, value as u32) as u16;
        proof {
            lemma_bits_of_with_bits(old_value as u32, 0, 4, value as u32);
            if value < 16 {
                lemma_fits_mask(value as u32, 4);
            }
            lemma_bits_of_with_other_bits(old_value as u32, 0, 4, value as u32, 4, 1);
            lemma_bits_of_with_other_bits(old_value as u32, 0, 4, value as u32, 5, 1);
            lemma_bits_of_with_other_bits(old_value as u32, 0, 4, value as u32, 8, 4);
            lemma_bits_of_with_other_bits(old_value as u32, 0, 4, value as u32, 12, 1);
            lemma_bits_of_with_other_bits(old_value as u32, 0, 4, value as u32, 13, 1);
        }
    }

    /// Bits 4..4.
    pub open spec fn window0_obj_enable(self) -> u8 {
        bits(self.value as u32, 4, 1) as u8
    }

    /// Reads bits 4..4.
    pub fn get_window0_obj_enable(&self) -> (r: u8)
        ensures
            r == self.window0_obj_enable(),
            r < 2,
    {
        get_bits(self.value as u32, 4, 1) as u8
    }

    /// Writes bits 4..4 from the low bits of `value`; every other field keeps its value.
    pub fn set_window0_obj_enable(&mut self, value: u8)
        ensures
            final(self).value == with_bits(old(self).value as u32, 4, 1, value as u32) as u16,
            value < 2 ==> final(self).window0_obj_enable() == value,
            final(self).window0_bg_enable() == old(self).window0_bg_enable(),
            final(self).window0_sfx_enable() == old(self).window0_sfx_enable(),
            final(self).window1_bg_enable() == old(self).window1_bg_enable(),
            final(self).window1_obj_enable() == old(self).window1_obj_enable(),
            final(self).window1_sfx_enable() == old(self).window1_sfx_enable(),
    {
        let old_value = self.value;
        self.value = set_bits(self.value as u32, 4, 1, value as u32) as u16;
        proof {
            lemma_bits_of_with_bits(old_value as u32, 4, 1, value as u32);
            if value < 2 {
                lemma_fits_mask(value as u32, 1);
            }
            lemma_bits_of_with_other_bits(old_value as u32, 4, 1, value as u32, 0, 4);
            lemma_bits_of_with_other_bits(old_value as u32, 4, 1, value as u32, 5, 1);
            lemma_bits_of_with_other_bits(old_value as u32, 4, 1, value as u32, 8, 4);
            lemma_bits_of_with_other_bits(old_value as u32, 4, 1, value as u32, 12, 1);
            lemma_bits_of_with_other_bits(old_value as u32, 4, 1, value as u32, 13, 1);
        }
    }

    /// Bits 5..5.
    pub open spec fn window0_sfx_enable(self) -> u8 {
        bits(self.value as u32, 5, 1) as u8
    }

    /// Reads bits 5..5.
    pub fn get_window0_sfx_enable(&self) -> (r: u8)
        ensures
            r == self.window0_sfx_enable(),
            r < 2,
    {
        get_bits(self.value as u32, 5, 1) as u8
    }

    /// Writes bits 5..5 from the low bits of `value`; every other field keeps its value.
    pub fn set_window0_sfx_enable(&mut self, value: u8)
        ensures
            final(self).value == with_bits(old(self).value as u32, 5, 1, value as u32) as u16,
            value < 2 ==> final(self).window0_sfx_enable() == value,
            final(self).window0_bg_enable() == old(self).window0_bg_enable(),
            final(self).window0_obj_enable() == old(self).window0_obj_enable(),
            final(self).window1_bg_enable() == old(self).window1_bg_enable(),
            final(self).window1_obj_enable() == old(self).window1_obj_enable(),
            final(self).window1_sfx_enable() == old(self).window1_sfx_enable(),
    {
        let old_value = self.value;
        self.value = set_bits(self.value as u32, 5, 1, value as u32) as u16;
        proof {
            lemma_bits_of_with_bits(old_value as u32, 5, 1, value as u32);
            if value < 2 {
                lemma_fits_mask(value as u32, 1);
            }
            lemma_bits_of_with_other_bits(old_value as u32, 5, 1, value as u32, 0, 4);
            lemma_bits_of_with_other_bits(old_value as u32, 5, 1, value as u32, 4, 1);
            lemma_bits_of_with_other_bits(old_value as u32, 5, 1, value as u32, 8, 4);
            lemma_bits_of_with_other_bits(old_value as u32, 5, 1, value as u32, 12, 1);
            lemma_bits_of_with_other_bits(old_value as u32, 5, 1, value as u32, 13, 1);
        }
    }

    /// Bits 11..8.
    pub open spec fn window1_bg_enable(self) -> u8 {
        bits(self.value as u32, 8, 4) as u8
    }

    /// Reads bits 11..8.
    pub fn get_window1_bg_enable(&self) -> (r: u8)
        ensures
            r == self.window1_bg_enable(),
            r < 16,
    {
        get_bits(self.value as u32, 8, 4) as u8
    }

    /// Writes bits 11..8 from the low bits of `value`; every other field keeps its value.
    pub fn set_window1_bg_enable(&mut self, value: u8)
        ensures
            final(self).value == with_bits(old(self).value as u32, 8, 4, value as u32) as u16,
            value < 16 ==> final(self).window1_bg_enable() == value,
            final(self).window0_bg_enable() == old(self).window0_bg_enable(),
            final(self).window0_obj_enable() == old(self).window0_obj_enable(),
            final(self).window0_sfx_enable() == old(self).window0_sfx_enable(),
            final(self).window1_obj_enable() == old(self).window1_obj_enable(),
            final(self).window1_sfx_enable() == old(self).window1_sfx_enable(),
    {
        let old_value = self.value;
        self.value = set_bits(self.value as u32, 8, 4, value as u32) as u16;
        proof {
            lemma_bits_of_with_bits(old_value as u32, 8, 4, value as u32);
            if value < 16 {
                lemma_fits_mask(value as u32, 4);
            }
            lemma_bits_of_with_other_bits(old_value as u32, 8, 4, value as u32, 0, 4);
            lemma_bits_of_with_other_bits(old_value as u32, 8, 4, value as u32, 4, 1);
            lemma_bits_of_with_other_bits(old_value as u32, 8, 4, value as u32, 5, 1);
            lemma_bits_of_with_other_bits(old_value as u32, 8, 4, value as u32, 12, 1);
            lemma_bits_of_with_other_bits(old_value as u32, 8, 4, value as u32, 13, 1);
        }
    }

    /// Bits 12..12.
    pub open spec fn window1_obj_enable(self) -> u8 {
        bits(self.value as u32, 12, 1) as u8
    }

    /// Reads bits 12..12.
    pub fn get_window1_obj_enable(&self) -> (r: u8)
        ensures
            r == self.window1_obj_enable(),
            r < 2,
    {
        get_bits(self.value as u32, 12, 1) as u8
    }

    /// Writes bits 12..12 from the low bits of `value`; every other field keeps its value.
    pub fn set_window1_obj_enable(&mut self, value: u8)
        ensures
            final(self).value == with_bits(old(self).value as u32, 12, 1, value as u32) as u16,
            value < 2 ==> final(self).window1_obj_enable() == value,
            final(self).window0_bg_enable() == old(self).window0_bg_enable(),
            final(self).window0_obj_enable() == old(self).window0_obj_enable(),
            final(self).window0_sfx_enable() == old(self).window0_sfx_enable(),
            final(self).window1_bg_enable() == old(self).window1_bg_enable(),
            final(self).window1_sfx_enable() == old(self).window1_sfx_enable(),
    {
        let old_value = self.value;
        self.value = set_bits(self.value as u32, 12, 1, value as u32) as u16;
        proof {
            lemma_bits_of_with_bits(old_value as u32, 12, 1, value as u32);
            if value < 2 {
                lemma_fits_mask(value as u32, 1);
            }
            lemma_bits_of_with_other_bits(old_value as u32, 12, 1, value as u32, 0, 4);
            lemma_bits_of_with_other_bits(old_value as u32, 12, 1, value as u32, 4, 1);
            lemma_bits_of_with_other_bits(old_value as u32, 12, 1, value as u32, 5, 1);
            lemma_bits_of_with_other_bits(old_value as u32, 12, 1, value as u32, 8, 4);
            lemma_bits_of_with_other_bits(old_value as u32, 12, 1, value as u32, 13, 1);
        }
    }

    /// Bits 13..13.
    pub open spec fn window1_sfx_enable(self) -> u8 {
        bits(self.value as u32, 13, 1) as u8
    }

    /// Reads bits 13..13.
    pub fn get_window1_sfx_enable(&self) -> (r: u8)
        ensures
            r == self.window1_sfx_enable(),
            r < 2,
    {
        get_bits(self.value as u32, 13, 1) as u8
    }

    /// Writes bits 13..13 from the low bits of `value`; every other field keeps its value.
    pub fn set_window1_sfx_enable(&mut self, value: u8)
        ensures
            final(self).value == with_bits(old(self).value as u32, 13, 1, value as u32) as u16,
            value < 2 ==> final(self).window1_sfx_enable() == value,
            final(self).window0_bg_enable() == old(self).window0_bg_enable(),
            final(self).window0_obj_enable() == old(self).window0_obj_enable(),
            final(self).window0_sfx_enable() == old(self).window0_sfx_enable(),
            final(self).window1_bg_enable() == old(self).window1_bg_enable(),
            final(self).window1_obj_enable() == old(self).window1_obj_enable(),
    {
        let old_value = self.value;
        self.value = set_bits(self.value as u32, 13, 1, value as u32) as u16;
        proof {
            lemma_bits_of_with_bits(old_value as u32, 13, 1, value as u32);
            if value < 2 {
                lemma_fits_mask(value as u32, 1);
            }
            lemma_bits_of_with_other_bits(old_value as u32, 13, 1, value as u32, 0, 4);
            lemma_bits_of_with_other_bits(old_value as u32, 13, 1, value as u32, 4, 1);
            lemma_bits_of_with_other_bits(old_value as u32, 13, 1, value as u32, 5, 1);
            lemma_bits_of_with_other_bits(old_value as u32, 13, 1, value as u32, 8, 4);
            lemma_bits_of_with_other_bits(old_value as u32, 13, 1, value as u32, 12, 1);
        }
    }
}

/// What shows outside the windows and inside the sprite window (WINOUT).
#[derive(Clone, Copy, Debug, PartialEq, Eq, Structural)]
pub struct ControlWindowOutside {
    pub value: u16,
}

impl ControlWindowOutside {
    /// A register holding zero.
    pub fn new() -> (r: ControlWindowOutside)
        ensures
            r.value == 0,
    {
        ControlWindowOutside { value: 0 }
    }

    /// The whole register.
    pub fn get_register(&self) -> (r: u16)
        ensures
            r == self.value,
    {
        self.value
    }

    /// Writes the whole register from the low bits of `value`.
    pub fn set_register(&mut self, value: u32)
        ensures
            final(self).value == value as u16,
    {
        self.value = value as u16;
    }

    /// Bits 3..0.
    pub open spec fn outside_bg_enable(self) -> u8 {
        bits(self.value as u32, 0, 4) as u8
    }

    /// Reads bits 3..0.
    pub fn get_outside_bg_enable(&self) -> (r: u8)
        ensures
            r == self.outside_bg_enable(),
            r < 16,
    {
        get_bits(self.value as u32, 0, 4) as u8
    }

    /// Writes bits 3..0 from the low bits of `value`; every other field keeps its value.
    pub fn set_outside_bg_enable(&mut self, value: u8)
        ensures
            final(self).value == with_bits(old(self).value as u32, 0, 4, value as u32) as u16,
            value < 16 ==> final(self).outside_bg_enable() == value,
            final(self).outside_obj_enable() == old(self).outside_obj_enable(),
            final(self).outside_sfx_enable() == old(self).outside_sfx_enable(),
            final(self).obj_window_bg_enable() == old(self).obj_window_bg_enable(),
            final(self).obj_window_obj_enable() == old(self).obj_window_obj_enable(),
            final(self).obj_window_sfx_enable() == old(self).obj_window_sfx_enable(),
    {
        let old_value = self.value;
        self.value = set_bits(self.value as u32, 0, 4, value as u32) as u16;
        proof {
            lemma_bits_of_with_bits(old_value as u32, 0, 4, value as u32);
            if value < 16 {
                lemma_fits_mask(value as u32, 4);
            }
            lemma_bits_of_with_other_bits(old_value as u32, 0, 4, value as u32, 4, 1);
            lemma_bits_of_with_other_bits(old_value as u32, 0, 4, value as u32, 5, 1);
            lemma_bits_of_with_other_bits(old_value as u32, 0, 4, value as u32, 8, 4);
            lemma_bits_of_with_other_bits(old_value as u32, 0, 4, value as u32, 12, 1);
            lemma_bits_of_with_other_bits(old_value as u32, 0, 4, value as u32, 13, 1);
        }
    }

    /// Bits 4..4.
    pub open spec fn outside_obj_enable(self) -> u8 {
        bits(self.value as u32, 4, 1) as u8
    }

    /// Reads bits 4..4.
    pub fn get_outside_obj_enable(&self) -> (r: u8)
        ensures
            r == self.outside_obj_enable(),
            r < 2,
    {
        get_bits(self.value as u32, 4, 1) as u8
    }

    /// Writes bits 4..4 from the low bits of `value`; every other field keeps its value.
    pub fn set_outside_obj_enable(&mut self, value: u8)
        ensures
            final(self).value == with_bits(old(self).value as u32, 4, 1, value as u32) as u16,
            value < 2 ==> final(self).outside_obj_enable() == value,
            final(self).outside_bg_enable() == old(self).outside_bg_enable(),
            final(self).outside_sfx_enable() == old(self).outside_sfx_enable(),
            final(self).obj_window_bg_enable() == old(self).obj_window_bg_enable(),
            final(self).obj_window_obj_enable() == old(self).obj_window_obj_enable(),
            final(self).obj_window_sfx_enable() == old(self).obj_window_sfx_enable(),
    {
        let old_value = self.value;
        self.value = set_bits(self.value as u32, 4, 1, value as u32) as u16;
        proof {
            lemma_bits_of_with_bits(old_value as u32, 4, 1, value as u32);
            if value < 2 {
                lemma_fits_mask(value as u32, 1);
            }
            lemma_bits_of_with_other_bits(old_value as u32, 4, 1, value as u32, 0, 4);
            lemma_bits_of_with_other_bits(old_value as u32, 4, 1, value as u32, 5, 1);
            lemma_bits_of_with_other_bits(old_value as u32, 4, 1, value as u32, 8, 4);
            lemma_bits_of_with_other_bits(old_value as u32, 4, 1, value as u32, 12, 1);
            lemma_bits_of_with_other_bits(old_value as u32, 4, 1, value as u32, 13, 1);
        }
    }

    /// Bits 5..5.
    pub open spec fn outside_sfx_enable(self) -> u8 {
        bits(self.value as u32, 5, 1) as u8
    }

    /// Reads bits 5..5.
    pub fn get_outside_sfx_enable(&self) -> (r: u8)
        ensures
            r == self.outside_sfx_enable(),
            r < 2,
    {
        get_bits(self.value as u32, 5, 1) as u8
    }

    /// Writes bits 5..5 from the low bits of `value`; every other field keeps its value.
    pub fn set_outside_sfx_enable(&mut self, value: u8)
        ensures
            final(self).value == with_bits(old(self).value as u32, 5, 1, value as u32) as u16,
            value < 2 ==> final(self).outside_sfx_enable() == value,
            final(self).outside_bg_enable() == old(self).outside_bg_enable(),
            final(self).outside_obj_enable() == old(self).outside_obj_enable(),
            final(self).obj_window_bg_enable() == old(self).obj_window_bg_enable(),
            final(self).obj_window_obj_enable() == old(self).obj_window_obj_enable(),
            final(self).obj_window_sfx_enable() == old(self).obj_window_sfx_enable(),
    {
        let old_value = self.value;
        self.value = set_bits(self.value as u32, 5, 1, value as u32) as u16;
        proof {
            lemma_bits_of_with_bits(old_value as u32, 5, 1, value as u32);
            if value < 2 {
                lemma_fits_mask(value as u32, 1);
            }
            lemma_bits_of_with_other_bits(old_value as u32, 5, 1, value as u32, 0, 4);
            lemma_bits_of_with_other_bits(old_value as u32, 5, 1, value as u32, 4, 1);
            lemma_bits_of_with_other_bits(old_value as u32, 5, 1, value as u32, 8, 4);
            lemma_bits_of_with_other_bits(old_value as u32, 5, 1, value as u32, 12, 1);
            lemma_bits_of_with_other_bits(old_value as u32, 5, 1, value as u32, 13, 1);
        }
    }

    /// Bits 11..8.
    pub open spec fn obj_window_bg_enable(self) -> u8 {
        bits(self.value as u32, 8, 4) as u8
    }

    /// Reads bits 11..8.
    pub fn get_obj_window_bg_enable(&self) -> (r: u8)
        ensures
            r == self.obj_window_bg_enable(),
            r < 16,
    {
        get_bits(self.value as u32, 8, 4) as u8
    }

    /// Writes bits 11..8 from the low bits of `value`; every other field keeps its value.
    pub fn set_obj_window_bg_enable(&mut self, value: u8)
        ensures
            final(self).value == with_bits(old(self).value as u32, 8, 4, value as u32) as u16,
            value < 16 ==> final(self).obj_window_bg_enable() == value,
            final(self).outside_bg_enable() == old(self).outside_bg_enable(),
            final(self).outside_obj_enable() == old(self).outside_obj_enable(),
            final(self).outside_sfx_enable() == old(self).outside_sfx_enable(),
            final(self).obj_window_obj_enable() == old(self).obj_window_obj_enable(),
            final(self).obj_window_sfx_enable() == old(self).obj_window_sfx_enable(),
    {
        let old_value = self.value;
        self.value = set_bits(self.value as u32, 8, 4, value as u32) as u16;
        proof {
            lemma_bits_of_with_bits(old_value as u32, 8, 4, value as u32);
            if value < 16 {
                lemma_fits_mask(value as u32, 4);
            }
            lemma_bits_of_with_other_bits(old_value as u32, 8, 4, value as u32, 0, 4);
            lemma_bits_of_with_other_bits(old_value as u32, 8, 4, value as u32, 4, 1);
            lemma_bits_of_with_other_bits(old_value as u32, 8, 4, value as u32, 5, 1);
            lemma_bits_of_with_other_bits(old_value as u32, 8, 4, value as u32, 12, 1);
            lemma_bits_of_with_other_bits(old_value as u32, 8, 4, value as u32, 13, 1);
        }
    }

    /// Bits 12..12.
    pub open spec fn obj_window_obj_enable(self) -> u8 {
        bits(self.value as u32, 12, 1) as u8
    }

    /// Reads bits 12..12.
    pub fn get_obj_window_obj_enable(&self) -> (r: u8)
        ensures
            r == self.obj_window_obj_enable(),
            r < 2,
    {
        get_bits(self.value as u32, 12, 1) as u8
    }

    /// Writes bits 12..12 from the low bits of `value`; every other field keeps its value.
    pub fn set_obj_window_obj_enable(&mut self, value: u8)
        ensures
            final(self).value == with_bits(old(self).value as u32, 12, 1, value as u32) as u16,
            value < 2 ==> final(self).obj_window_obj_enable() == value,
            final(self).outside_bg_enable() == old(self).outside_bg_enable(),
            final(self).outside_obj_enable() == old(self).outside_obj_enable(),
            final(self).outside_sfx_enable() == old(self).outside_sfx_enable(),
            final(self).obj_window_bg_enable() == old(self).obj_window_bg_enable(),
            final(self).obj_window_sfx_enable() == old(self).obj_window_sfx_enable(),
    {
        let old_value = self.value;
        self.value = set_bits(self.value as u32, 12, 1, value as u32) as u16;
        proof {
            lemma_bits_of_with_bits(old_value as u32, 12, 1, value as u32);
            if value < 2 {
                lemma_fits_mask(value as u32, 1);
            }
            lemma_bits_of_with_other_bits(old_value as u32, 12, 1, value as u32, 0, 4);
            lemma_bits_of_with_other_bits(old_value as u32, 12, 1, value as u32, 4, 1);
            lemma_bits_of_with_other_bits(old_value as u32, 12, 1, value as u32, 5, 1);
            lemma_bits_of_with_other_bits(old_value as u32, 12, 1, value as u32, 8, 4);
            lemma_bits_of_with_other_bits(old_value as u32, 12, 1, value as u32, 13, 1);
        }
    }

    /// Bits 13..13.
    pub open spec fn obj_window_sfx_enable(self) -> u8 {
        bits(self.value as u32, 13, 1) as u8
    }

    /// Reads bits 13..13.
    pub fn get_obj_window_sfx_enable(&self) -> (r: u8)
        ensures
            r == self.obj_window_sfx_enable(),
            r < 2,
    {
        get_bits(self.value as u32, 13, 1) as u8
    }

    /// Writes bits 13..13 from the low bits of `value`; every other field keeps its value.
    pub fn set_obj_window_sfx_enable(&mut self, value: u8)
        ensures
            final(self).value == with_bits(old(self).value as u32, 13, 1, value as u32) as u16,
            value < 2 ==> final(self).obj_window_sfx_enable() == value,
            final(self).outside_bg_enable() == old(self).outside_bg_enable(),
            final(self).outside_obj_enable() == old(self).outside_obj_enable(),
            final(self).outside_sfx_enable() == old(self).outside_sfx_enable(),
            final(self).obj_window_bg_enable() == old(self).obj_window_bg_enable(),
            final(self).obj_window_obj_enable() == old(self).obj_window_obj_enable(),
    {
        let old_value = self.value;
        self.value = set_bits(self.value as u32, 13, 1, value as u32) as u16;
        proof {
            lemma_bits_of_with_bits(old_value as u32, 13, 1, value as u32);
            if value < 2 {
                lemma_fits_mask(value as u32, 1);
            }
            lemma_bits_of_with_other_bits(old_value as u32, 13, 1, value as u32, 0, 4);
            lemma_bits_of_with_other_bits(old_value as u32, 13, 1, value as u32, 4, 1);
            lemma_bits_of_with_other_bits(old_value as u32, 13, 1, value as u32, 5, 1);
            lemma_bits_of_with_other_bits(old_value as u32, 13, 1, value as u32, 8, 4);
            lemma_bits_of_with_other_bits(old_value as u32, 13, 1, value as u32, 12, 1);
        }
    }
}

/// Mosaic block sizes of backgrounds and sprites (MOSAIC).
#[derive(Clone, Copy, Debug, PartialEq, Eq, Structural)]
pub struct MosaicSize {
    pub value: u16,
}

impl MosaicSize {
    /// A register holding zero.
    pub fn new() -> (r: MosaicSize)
        ensures
            r.value == 0,
    {
        MosaicSize { value: 0 }
    }

    /// The whole register.
    pub fn get_register(&self) -> (r: u16)
        ensures
            r == self.value,
    {
        self.value
    }

    /// Writes the whole register from the low bits of `value`.
    pub fn set_register(&mut self, value: u32)
        ensures
            final(self).value == value as u16,
    {
        self.value = value as u16;
    }

    /// Bits 3..0.
    pub open spec fn bg_h_size(self) -> u8 {
        bits(self.value as u32, 0, 4) as u8
    }

    /// Reads bits 3..0.
    pub fn get_bg_h_size(&self) -> (r: u8)
        ensures
            r == self.bg_h_size(),
            r < 16,
    {
        get_bits(self.value as u32, 0, 4) as u8
    }

    /// Writes bits 3..0 from the low bits of `value`; every other field keeps its value.
    pub fn set_bg_h_size(&mut self, value: u8)
        ensures
            final(self).value == with_bits(old(self).value as u32, 0, 4, value as u32) as u16,
            value < 16 ==> final(self).bg_h_size() == value,
            final(self).bg_v_size() == old(self).bg_v_size(),
            final(self).obj_h_size() == old(self).obj_h_size(),
            final(self).obj_v_size() == old(self).obj_v_size(),
    {
        let old_value = self.value;
        self.value = set_bits(self.value as u32, 0, 4, value as u32) as u16;
        proof {
            lemma_bits_of_with_bits(old_value as u32, 0, 4, value as u32);
            if value < 16 {
                lemma_fits_mask(value as u32, 4);
            }
            lemma_bits_of_with_other_bits(old_value as u32, 0, 4, value as u32, 4, 4);
            lemma_bits_of_with_other_bits(old_value as u32, 0, 4, value as u32, 8, 4);
            lemma_bits_of_with_other_bits(old_value as u32, 0, 4, value as u32, 12, 4);
        }
    }

    /// Bits 7..4.
    pub open spec fn bg_v_size(self) -> u8 {
        bits(self.value as u32, 4, 4) as u8
    }

    /// Reads bits 7..4.
    pub fn get_bg_v_size(&self) -> (r: u8)
        ensures
            r == self.bg_v_size(),
            r < 16,
    {
        get_bits(self.value as u32, 4, 4) as u8
    }

    /// Writes bits 7..4 from the low bits of `value`; every other field keeps its value.
    pub fn set_bg_v_size(&mut self, value: u8)
        ensures
            final(self).value == with_bits(old(self).value as u32, 4, 4, value as u32) as u16,
            value < 16 ==> final(self).bg_v_size() == value,
            final(self).bg_h_size() == old(self).bg_h_size(),
            final(self).obj_h_size() == old(self).obj_h_size(),
            final(self).obj_v_size() == old(self).obj_v_size(),
    {
        let old_value = self.value;
        self.value = set_bits(self.value as u32, 4, 4, value as u32) as u16;
        proof {
            lemma_bits_of_with_bits(old_value as u32, 4, 4, value as u32);
            if value < 16 {
                lemma_fits_mask(value as u32, 4);
            }
            lemma_bits_of_with_other_bits(old_value as u32, 4, 4, value as u32, 0, 4);
            lemma_bits_of_with_other_bits(old_value as u32, 4, 4, value as u32, 8, 4);
            lemma_bits_of_with_other_bits(old_value as u32, 4, 4, value as u32, 12, 4);
        }
    }

    /// Bits 11..8.
    pub open spec fn obj_h_size(self) -> u8 {
        bits(self.value as u32, 8, 4) as u8
    }

    /// Reads bits 11..8.
    pub fn get_obj_h_size(&self) -> (r: u8)
        ensures
            r == self.obj_h_size(),
            r < 16,
    {
        get_bits(self.value as u32, 8, 4) as u8
    }

    /// Writes bits 11..8 from the low bits of `value`; every other field keeps its value.
    pub fn set_obj_h_size(&mut self, value: u8)
        ensures
            final(self).value == with_bits(old(self).value as u32, 8, 4, value as u32) as u16,
            value < 16 ==> final(self).obj_h_size() == value,
            final(self).bg_h_size() == old(self).bg_h_size(),
            final(self).bg_v_size() == old(self).bg_v_size(),
            final(self).obj_v_size() == old(self).obj_v_size(),
    {
        let old_value = self.value;
        self.value = set_bits(self.value as u32, 8, 4, value as u32) as u16;
        proof {
            lemma_bits_of_with_bits(old_value as u32, 8, 4, value as u32);
            if value < 16 {
                lemma_fits_mask(value as u32, 4);
            }
            lemma_bits_of_with_other_bits(old_value as u32, 8, 4, value as u32, 0, 4);
            lemma_bits_of_with_other_bits(old_value as u32, 8, 4, value as u32, 4, 4);
            lemma_bits_of_with_other_bits(old_value as u32, 8, 4, value as u32, 12, 4);
        }
    }

    /// Bits 15..12.
    pub open spec fn obj_v_size(self) -> u8 {
        bits(self.value as u32, 12, 4) as u8
    }

    /// Reads bits 15..12.
    pub fn get_obj_v_size(&self) -> (r: u8)
        ensures
            r == self.obj_v_size(),
            r < 16,
    {
        get_bits(self.value as u32, 12, 4) as u8
    }

    /// Writes bits 15..12 from the low bits of `value`; every other field keeps its value.
    pub fn set_obj_v_size(&mut self, value: u8)
        ensures
            final(self).value == with_bits(old(self).value as u32, 12, 4, value as u32) as u16,
            value < 16 ==> final(self).obj_v_size() == value,
            final(self).bg_h_size() == old(self).bg_h_size(),
            final(self).bg_v_size() == old(self).bg_v_size(),
            final(self).obj_h_size() == old(self).obj_h_size(),
    {
        let old_value = self.value;
        self.value = set_bits(self.value as u32, 12, 4, value as u32) as u16;
        proof {
            lemma_bits_of_with_bits(old_value as u32, 12, 4, value as u32);
            if value < 16 {
                lemma_fits_mask(value as u32, 4);
            }
            lemma_bits_of_with_other_bits(old_value as u32, 12, 4, value as u32, 0, 4);
            lemma_bits_of_with_other_bits(old_value as u32, 12, 4, value as u32, 4, 4);
            lemma_bits_of_with_other_bits(old_value as u32, 12, 4, value as u32, 8, 4);
        }
    }
}

/// Colour special effect control (BLDCNT): the first target layers, the effect and the second target layers.
#[derive(Clone, Copy, Debug, PartialEq, Eq, Structural)]
pub struct ColorSpecialEffectsSelection {
    pub value: u16,
}

impl ColorSpecialEffectsSelection {
    /// A register holding zero.
    pub fn new() -> (r: ColorSpecialEffectsSelection)
        ensures
            r.value == 0,
    {
        ColorSpecialEffectsSelection { value: 0 }
    }

    /// The whole register.
    pub fn get_register(&self) -> (r: u16)
        ensures
            r == self.value,
    {
        self.value
    }

    /// Writes the whole register from the low bits of `value`.
    pub fn set_register(&mut self, value: u32)
        ensures
            final(self).value == value as u16,
    {
        self.value = value as u16;
    }

    /// Bits 5..0.
    pub open spec fn first_target(self) -> u8 {
        bits(self.value as u32, 0, 6) as u8
    }

    /// Reads bits 5..0.
    pub fn get_first_target(&self) -> (r: u8)
        ensures
            r == self.first_target(),
            r < 64,
    {
        get_bits(self.value as u32, 0, 6) as u8
    }

    /// Writes bits 5..0 from the low bits of `value`; every other field keeps its value.
    pub fn set_first_target(&mut self, value: u8)
        ensures
            final(self).value == with_bits(old(self).value as u32, 0, 6, value as u32) as u16,
            value < 64 ==> final(self).first_target() == value,
            final(self).blend_mode() == old(self).blend_mode(),
            final(self).second_target() == old(self).second_target(),
    {
        let old_value = self.value;
        self.value = set_bits(self.value as u32, 0, 6, value as u32) as u16;
        proof {
            lemma_bits_of_with_bits(old_value as u32, 0, 6, value as u32);
            if value < 64 {
                lemma_fits_mask(value as u32, 6);
            }
            lemma_bits_of_with_other_bits(old_value as u32, 0, 6, value as u32, 6, 2);
            lemma_bits_of_with_other_bits(old_value as u32, 0, 6, value as u32, 8, 6);
        }
    }

    /// Bits 7..6.
    pub open spec fn blend_mode(self) -> u8 {
        bits(self.value as u32, 6, 2) as u8
    }

    /// Reads bits 7..6.
    pub fn get_blend_mode(&self) -> (r: u8)
        ensures
            r == self.blend_mode(),
            r < 4,
    {
        get_bits(self.value as u32, 6, 2) as u8
    }

    /// Writes bits 7..6 from the low bits of `value`; every other field keeps its value.
    pub fn set_blend_mode(&mut self, value: u8)
        ensures
            final(self).value == with_bits(old(self).value as u32, 6, 2, value as u32) as u16,
            value < 4 ==> final(self).blend_mode() == value,
            final(self).first_target() == old(self).first_target(),
            final(self).second_target() == old(self).second_target(),
    {
        let old_value = self.value;
        self.value = set_bits(self.value as u32, 6, 2, value as u32) as u16;
        proof {
            lemma_bits_of_with_bits(old_value as u32, 6, 2, value as u32);
            if value < 4 {
                lemma_fits_mask(value as u32, 2);
            }
            lemma_bits_of_with_other_bits(old_value as u32, 6, 2, value as u32, 0, 6);
            lemma_bits_of_with_other_bits(old_value as u32, 6, 2, value as u32, 8, 6);
        }
    }

    /// Bits 13..8.
    pub open spec fn second_target(self) -> u8 {
        bits(self.value as u32, 8, 6) as u8
    }

    /// Reads bits 13..8.
    pub fn get_second_target(&self) -> (r: u8)
        ensures
            r == self.second_target(),
            r < 64,
    {
        get_bits(self.value as u32, 8, 6) as u8
    }

    /// Writes bits 13..8 from the low bits of `value`; every other field keeps its value.
    pub fn set_second_target(&mut self, value: u8)
        ensures
            final(self).value == with_bits(old(self).value as u32, 8, 6, value as u32) as u16,
            value < 64 ==> final(self).second_target() == value,
            final(self).first_target() == old(self).first_target(),
            final(self).blend_mode() == old(self).blend_mode(),
    {
        let old_value = self.value;
        self.value = set_bits(self.value as u32, 8, 6, value as u32) as u16;
        proof {
            lemma_bits_of_with_bits(old_value as u32, 8, 6, value as u32);
            if value < 64 {
                lemma_fits_mask(value as u32, 6);
            }
            lemma_bits_of_with_other_bits(old_value as u32, 8, 6, value as u32, 0, 6);
            lemma_bits_of_with_other_bits(old_value as u32, 8, 6, value as u32, 6, 2);
        }
    }
}

/// Alpha blending weights of the first and second target (BLDALPHA), in sixteenths.
#[derive(Clone, Copy, Debug, PartialEq, Eq, Structural)]
pub struct AlphaBlendingCoefficients {
    pub value: u16,
}

impl AlphaBlendingCoefficients {
    /// A register holding zero.
    pub fn new() -> (r: AlphaBlendingCoefficients)
        ensures
            r.value == 0,
    {
        AlphaBlendingCoefficients { value: 0 }
    }

    /// The whole register.
    pub fn get_register(&self) -> (r: u16)
        ensures
            r == self.value,
    {
        self.value
    }

    /// Writes the whole register from the low bits of `value`.
    pub fn set_register(&mut self, value: u32)
        ensures
            final(self).value == value as u16,
    {
        self.value = value as u16;
    }

    /// Bits 4..0.
    pub open spec fn eva_coefficient(self) -> u8 {
        bits(self.value as u32, 0, 5) as u8
    }

    /// Reads bits 4..0.
    pub fn get_eva_coefficient(&self) -> (r: u8)
        ensures
            r == self.eva_coefficient(),
            r < 32,
    {
        get_bits(self.value as u32, 0, 5) as u8
    }

    /// Writes bits 4..0 from the low bits of `value`; every other field keeps its value.
    pub fn set_eva_coefficient(&mut self, value: u8)
        ensures
            final(self).value == with_bits(old(self).value as u32, 0, 5, value as u32) as u16,
            value < 32 ==> final(self).eva_coefficient() == value,
            final(self).evb_coefficient() == old(self).evb_coefficient(),
    {
        let old_value = self.value;
        self.value = set_bits(self.value as u32, 0, 5, value as u32) as u16;
        proof {
            lemma_bits_of_with_bits(old_value as u32, 0, 5, value as u32);
            if value < 32 {
                lemma_fits_mask(value as u32, 5);
            }
            lemma_bits_of_with_other_bits(old_value as u32, 0, 5, value as u32, 8, 5);
        }
    }

    /// Bits 12..8.
    pub open spec fn evb_coefficient(self) -> u8 {
        bits(self.value as u32, 8, 5) as u8
    }

    /// Reads bits 12..8.
    pub fn get_evb_coefficient(&self) -> (r: u8)
        ensures
            r == self.evb_coefficient(),
            r < 32,
    {
        get_bits(self.value as u32, 8, 5) as u8
    }

    /// Writes bits 12..8 from the low bits of `value`; every other field keeps its value.
    pub fn set_evb_coefficient(&mut self, value: u8)
        ensures
            final(self).value == with_bits(old(self).value as u32, 8, 5, value as u32) as u16,
            value < 32 ==> final(self).evb_coefficient() == value,
            final(self).eva_coefficient() == old(self).eva_coefficient(),
    {
        let old_value = self.value;
        self.value = set_bits(self.value as u32, 8, 5, value as u32) as u16;
        proof {
            lemma_bits_of_with_bits(old_value as u32, 8, 5, value as u32);
            if value < 32 {
                lemma_fits_mask(value as u32, 5);
            }
            lemma_bits_of_with_other_bits(old_value as u32, 8, 5, value as u32, 0, 5);
        }
    }
}

/// Brightness change of the brighten and darken effects (BLDY), in sixteenths.
#[derive(Clone, Copy, Debug, PartialEq, Eq, Structural)]
pub struct BrightnessCoefficient {
    pub value: u16,
}

impl BrightnessCoefficient {
    /// A register holding zero.
    pub fn new() -> (r: BrightnessCoefficient)
        ensures
            r.value == 0,
    {
        BrightnessCoefficient { value: 0 }
    }

    /// The whole register.
    pub fn get_register(&self) -> (r: u16)
        ensures
            r == self.value,
    {
        self.value
    }

    /// Writes the whole register from the low bits of `value`.
    pub fn set_register(&mut self, value: u32)
        ensures
            final(self).value == value as u16,
    {
        self.value = value as u16;
    }

    /// Bits 4..0.
    pub open spec fn evy_coefficient(self) -> u8 {
        bits(self.value as u32, 0, 5) as u8
    }

    /// Reads bits 4..0.
    pub fn get_evy_coefficient(&self) -> (r: u8)
        ensures
            r == self.evy_coefficient(),
            r < 32,
    {
        get_bits(self.value as u32, 0, 5) as u8
    }

    /// Writes bits 4..0 from the low bits of `value`; every other field keeps its value.
    pub fn set_evy_coefficient(&mut self, value: u8)
        ensures
            final(self).value == with_bits(old(self).value as u32, 0, 5, value as u32) as u16,
            value < 32 ==> final(self).evy_coefficient() == value,
    {
        let old_value = self.value;
        self.value = set_bits(self.value as u32, 0, 5, value as u32) as u16;
        proof {
            lemma_bits_of_with_bits(old_value as u32, 0, 5, value as u32);
            if value < 32 {
                lemma_fits_mask(value as u32, 5);
            }
        }
    }
}

/// How many bits a pixel of a tile takes: 4 (16-colour palette banks) or 8
/// (one 256-colour palette).
#[derive(Clone, Copy, Debug, PartialEq, Eq, Structural)]
pub enum PixelFormat {
    FourBit,
    EightBit,
}

} // verus!
