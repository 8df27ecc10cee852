//! Angle lookups: byte angles to sine and cosine scaled by 256.
use vstd::prelude::*;

verus! {

/// Sine and cosine of each of the 256 byte angles, scaled by 256.
pub struct TrigTable {
    pub sin: Vec<i32>,
    pub cos: Vec<i32>,
}

/// The table entry that an angle selects: its low byte.
pub open spec fn angle_byte(angle: i32) -> int {
    (angle & 0xFF) as int
}

impl TrigTable {
    pub open spec fn wf(&self) -> bool {
        &&& self.sin@.len() == 256
        &&& self.cos@.len() == 256
        &&& forall|i: int| 0 <= i < 256 ==> -256 <= #[trigger] self.sin@[i] <= 256
        &&& forall|i: int| 0 <= i < 256 ==> -256 <= #[trigger] self.cos@[i] <= 256
    }

    pub open spec fn sin_spec(&self, angle: i32) -> i32 {
        self.sin@[angle_byte(angle)]
    }

    pub open spec fn cos_spec(&self, angle: i32) -> i32 {
        self.cos@[angle_byte(angle)]
    }

    /// A table from its two columns; `None` unless both hold 256 values in -256..=256.
    pub fn new(sin: Vec<i32>, cos: Vec<i32>) -> (r: Option<TrigTable>)
        ensures
            r is Some <==> (sin@.len() == 256 && cos@.len() == 256 && (forall|i: int|
                0 <= i < 256 ==> -256 <= #[trigger] sin@[i] <= 256) && (forall|i: int|
                0 <= i < 256 ==> -256 <= #[trigger] cos@[i] <= 256)),
            r matches Some(t) ==> t.wf() && t.sin@ == sin@ && t.cos@ == cos@,
    {
        if sin.len() != 256 || cos.len() != 256 {
            return None;
        }
        let mut i: usize = 0;
        while i < 256
            invariant
                0 <= i <= 256,
                sin@.len() == 256,
                cos@.len() == 256,
                forall|k: int| 0 <= k < i ==> -256 <= #[trigger] sin@[k] <= 256,
                forall|k: int| 0 <= k < i ==> -256 <= #[trigger] cos@[k] <= 256,
            decreases 256 - i,
        {
            if sin[i] < -256 || sin[i] > 256 || cos[i] < -256 || cos[i] > 256 {
                return None;
            }
            i = i + 1;
        }
        Some(TrigTable { sin, cos })
    }

    /// Sine of a byte angle, scaled by 256.
    pub fn sin_256(&self, angle: i32) -> (r: i32)
        requires
            self.wf(),
        ensures
            r == self.sin_spec(angle),
            -256 <= r <= 256,
    {
        get_trig(angle, &self.sin)
    }

    /// Cosine of a byte angle, scaled by 256.
    pub fn cos_256(&self, angle: i32) -> (r: i32)
        requires
            self.wf(),
        ensures
            r == self.cos_spec(angle),
            -256 <= r <= 256,
    {
        get_trig(angle, &self.cos)
    }
}

/// The sizes of the engine's trig tables: 256, 512 or 1024 steps per turn.
pub open spec fn trig_size_ok(n: nat) -> bool {
    n == 0x100 || n == 0x200 || n == 0x400
}

/// The entry of an `n`-step table that an angle selects: the angle modulo
/// `n`, as its low bits.
pub open spec fn trig_index(angle: i32, n: nat) -> int {
    (angle & ((n - 1) as i32)) as int
}

/// Looks an angle up in a 256, 512 or 1024-entry table by its low bits, so
/// that angles wrap around the table.
pub fn get_trig(angle: i32, table: &Vec<i32>) -> (r: i32)
    requires
        trig_size_ok(table@.len()),
    ensures
        0 <= trig_index(angle, table@.len()) < table@.len(),
        r == table@[trig_index(angle, table@.len())],
{
    let n = table.len();
    let i: i32 = if n == 0x100 {
        assert(0 <= (angle & 0xFFi32) < 0x100) by (bit_vector);
        angle & 0xFF
    } else if n == 0x200 {
        assert(0 <= (angle & 0x1FFi32) < 0x200) by (bit_vector);
        angle & 0x1FF
    } else {
        assert(0 <= (angle & 0x3FFi32) < 0x400) by (bit_vector);
        angle & 0x3FF
    };
    table[i as usize]
}

/// An inverse lookup: `table[angle]`, negated for a negative angle, and 0
/// past the end of the table.
pub fn get_atrig(angle: i32, table: &Vec<i32>) -> (r: i32)
    requires
        table@.len() <= 0x10000,
        angle > -(table@.len() as int),
        forall|i: int| 0 <= i < table@.len() ==> #[trigger] table@[i] != i32::MIN,
    ensures
        r == (if angle >= table@.len() {
            0
        } else if angle < 0 {
            -table@[-angle]
        } else {
            table@[angle as int] as int
        }),
{
    let n = table.len();
    if angle as i64 > n as i64 - 1 {
        0
    } else if angle < 0 {
        -table[(-angle) as usize]
    } else {
        table[angle as usize]
    }
}

} // verus!
