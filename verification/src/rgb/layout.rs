use vstd::prelude::*;

use crate::command::{zeros, VKCommand, VKCommandMaker};
use crate::data::{ViaReportData, VIA_REQUEST_SIZE};
use crate::error::VKError;
use crate::rgb::VKRgbCommandId;

verus! {

/// The LED indices of a reply row: `0xFF` marks a position without LED.
pub open spec fn layout_row(p: Seq<u8>) -> Seq<Option<u8>> {
    p.map_values(|v: u8| if v == 0xFF { None } else { Some(v) })
}

/// The number of positions of a reply row that hold an LED.
pub open spec fn layout_led_count(p: Seq<u8>) -> nat
    decreases p.len(),
{
    if p.len() == 0 {
        0
    } else {
        layout_led_count(p.drop_last()) + if p.last() == 0xFF {
            0nat
        } else {
            1nat
        }
    }
}

/// The position of the last LED of `row`, 0 when it has none.
pub open spec fn last_led(row: Seq<Option<u8>>) -> int
    decreases row.len(),
{
    if row.len() == 0 {
        0
    } else if row.last() is Some {
        row.len() - 1
    } else {
        last_led(row.drop_last())
    }
}

/// The largest [last_led] of the rows of `rows`, 0 without rows.
pub open spec fn max_last_led(rows: Seq<Seq<Option<u8>>>) -> int
    decreases rows.len(),
{
    if rows.len() == 0 {
        0
    } else {
        let m = max_last_led(rows.drop_last());
        let l = last_led(rows.last());
        if m < l {
            l
        } else {
            m
        }
    }
}

/// `row` cut or padded with empty positions to `n` positions.
pub open spec fn resize_row(row: Seq<Option<u8>>, n: int) -> Seq<Option<u8>> {
    if row.len() >= n {
        row.subrange(0, n)
    } else {
        row + Seq::new((n - row.len()) as nat, |i: int| None::<u8>)
    }
}

/// The bytes of the request for the LED indices of row `row`: every
/// position but the row number asks for an unknown key.
pub open spec fn layout_request_bytes(row: u8) -> Seq<u8> {
    VKRgbCommandId::RgbGetLedIdx.cmd_header() + seq![row] + Seq::new(29, |i: int| 0xFFu8)
}

/// A representation of the keyboard LED layout: the LED index at each
/// position of each row.
#[derive(Debug, Clone)]
pub struct VKRgbLayout {
    pub matrix: Vec<Vec<Option<u8>>>,
}

impl VKRgbLayout {
    /// The number of rows.
    pub fn get_row_count(&self) -> (r: usize)
        ensures
            r == self.matrix@.len(),
    {
        self.matrix.len()
    }

    /// The number of columns: the length of the first row, 0 without rows.
    pub fn get_col_count(&self) -> (r: usize)
        ensures
            self.matrix@.len() == 0 ==> r == 0,
            self.matrix@.len() > 0 ==> r == self.matrix@[0]@.len(),
    {
        if self.matrix.len() == 0 {
            0
        } else {
            self.matrix[0].len()
        }
    }
}

/// The state of a layout load: the rows read so far, the number of LEDs
/// they hold, the next row to ask for, and whether the load is over.
pub struct VKRgbLayoutLoader {
    led_count: usize,
    matrix: Vec<Vec<Option<u8>>>,
    led_received: usize,
    row: usize,
    done: bool,
}

impl VKRgbLayoutLoader {
    /// The rows read so far.
    pub closed spec fn rows(&self) -> Seq<Seq<Option<u8>>> {
        self.matrix@.map_values(|r: Vec<Option<u8>>| r@)
    }

    /// The number of LEDs the rows read so far hold.
    pub closed spec fn spec_led_received(&self) -> nat {
        self.led_received as nat
    }

    /// The number of LEDs of the keyboard.
    pub closed spec fn spec_led_count(&self) -> nat {
        self.led_count as nat
    }

    /// The next row to ask for.
    pub closed spec fn spec_row(&self) -> nat {
        self.row as nat
    }

    /// Whether the load is over.
    pub closed spec fn spec_done(&self) -> bool {
        self.done
    }

    /// A load for a keyboard of `led_count` LEDs.
    pub fn new(led_count: usize) -> (r: Self)
        ensures
            r.rows().len() == 0,
            r.spec_led_received() == 0,
            r.spec_led_count() == led_count,
            r.spec_row() == 0,
            !r.spec_done(),
    {
        let r = VKRgbLayoutLoader {
            led_count,
            matrix: Vec::new(),
            led_received: 0,
            row: 0,
            done: false,
        };
        assert(r.rows() =~= Seq::<Seq<Option<u8>>>::empty());
        r
    }

    /// The request for the LED indices of row `row`.
    pub fn row_request(row: u8) -> (r: VKCommand)
        ensures
            r.report@ == layout_request_bytes(row),
    {
        let mut req = VKRgbCommandId::RgbGetLedIdx.to_cmd();
        req.fill_payload(1, 0xFF);
        req.set_payload(0, row);
        assert(req.report@ =~= layout_request_bytes(row));
        req
    }

    /// The next request of the load, `None` when it is over: rows are asked
    /// for from 0 up to 254.
    pub fn next_request(&self) -> (r: Option<VKCommand>)
        ensures
            (self.spec_done() || self.spec_row() >= 255) ==> r is None,
            !(self.spec_done() || self.spec_row() >= 255) ==> (r matches Some(c)
                && c.report@ == layout_request_bytes(self.spec_row() as u8)),
    {
        if self.done || self.row >= 255 {
            None
        } else {
            Some(Self::row_request(self.row as u8))
        }
    }

    /// Takes in `value`, the reply to [VKRgbLayoutLoader::next_request].  A
    /// refused reply fails the load when no row was read yet, and ends it
    /// otherwise; an accepted one adds a row, and ends the load once the
    /// rows hold every LED.
    pub fn accept(&mut self, value: &ViaReportData) -> (r: Result<(), VKError>)
        requires
            !old(self).spec_done(),
            old(self).spec_row() < 255,
            old(self).rows().len() == old(self).spec_row(),
            old(self).spec_led_received() <= 29 * old(self).spec_row(),
        ensures
            final(self).spec_led_count() == old(self).spec_led_count(),
            final(self).rows().len() == final(self).spec_row(),
            final(self).spec_led_received() <= 29 * final(self).spec_row(),
            match VKRgbCommandId::RgbGetLedIdx.spec_check_reply(value@) {
                Err(e) => if old(self).rows().len() == 0 {
                    r == Err::<(), VKError>(e) && *final(self) == *old(self)
                } else {
                    r is Ok && final(self).rows() == old(self).rows() && final(self).spec_done()
                        && final(self).spec_row() == old(self).spec_row()
                        && final(self).spec_led_received() == old(self).spec_led_received()
                },
                Ok(p) => r is Ok && final(self).rows() == old(self).rows().push(layout_row(p))
                    && final(self).spec_led_received() == old(self).spec_led_received()
                    + layout_led_count(p) && final(self).spec_row() == old(self).spec_row() + 1
                    && final(self).spec_done() == (final(self).spec_led_received()
                    >= final(self).spec_led_count()),
            },
    {
        match VKRgbCommandId::RgbGetLedIdx.check_reply(value) {
            Ok(payload) => {
                let mut row: Vec<Option<u8>> = Vec::new();
                let mut count: usize = 0;
                let mut i: usize = 0;
                while i < payload.len()
                    invariant
                        i <= payload@.len(),
                        payload@.len() == 29,
                        row@ == layout_row(payload@.subrange(0, i as int)),
                        count == layout_led_count(payload@.subrange(0, i as int)),
                        count <= i,
                    decreases payload.len() - i,
                {
                    let v = payload[i];
                    assert(payload@.subrange(0, i + 1).drop_last() =~= payload@.subrange(
                        0,
                        i as int,
                    ));
                    if v == 0xFF {
                        row.push(None);
                    } else {
                        row.push(Some(v));
                        count = count + 1;
                    }
                    assert(row@ =~= layout_row(payload@.subrange(0, i + 1)));
                    i = i + 1;
                }
                assert(payload@.subrange(0, 29) =~= payload@);
                let ghost old_rows = self.rows();
                self.matrix.push(row);
                assert(self.rows() =~= old_rows.push(layout_row(payload@)));
                self.led_received = self.led_received + count;
                self.row = self.row + 1;
                self.done = self.led_received >= self.led_count;
                Ok(())
            },
            Err(e) => {
                if self.matrix.len() == 0 {
                    Err(e)
                } else {
                    self.done = true;
                    Ok(())
                }
            },
        }
    }

    /// The layout made of the rows read, all cut or padded to one more
    /// column than the last LED position of any row.
    pub fn finish(self) -> (r: VKRgbLayout)
        requires
            self.rows().len() <= 255,
        ensures
            r.matrix@.len() == self.rows().len(),
            forall|i: int|
                0 <= i < r.matrix@.len() ==> (#[trigger] r.matrix@[i])@ == resize_row(
                    self.rows()[i],
                    max_last_led(self.rows()) + 1,
                ),
    {
        let ghost rows = self.rows();
        let matrix = self.matrix;
        let mut cols: usize = 0;
        let mut i: usize = 0;
        while i < matrix.len()
            invariant
                i <= matrix@.len(),
                rows == matrix@.map_values(|r: Vec<Option<u8>>| r@),
                cols == max_last_led(rows.subrange(0, i as int)),
                cols < usize::MAX,
            decreases matrix.len() - i,
        {
            let last = last_led_position(&matrix[i]);
            assert(rows.subrange(0, i + 1).drop_last() =~= rows.subrange(0, i as int));
            assert(rows[i as int] == matrix@[i as int]@);
            if cols < last {
                cols = last;
            }
            i = i + 1;
        }
        assert(rows.subrange(0, matrix@.len() as int) =~= rows);
        let cols = cols + 1;
        let mut result: Vec<Vec<Option<u8>>> = Vec::new();
        let mut j: usize = 0;
        while j < matrix.len()
            invariant
                j <= matrix@.len(),
                rows == matrix@.map_values(|r: Vec<Option<u8>>| r@),
                cols == max_last_led(rows) + 1,
                result@.len() == j,
                forall|k: int|
                    0 <= k < j ==> (#[trigger] result@[k])@ == resize_row(rows[k], cols as int),
            decreases matrix.len() - j,
        {
            let mut row = matrix[j].clone();
            assert(row@ == rows[j as int]);
            resize_none(&mut row, cols);
            result.push(row);
            j = j + 1;
        }
        VKRgbLayout { matrix: result }
    }
}

/// The position of the last LED of `row`, 0 when it has none.
fn last_led_position(row: &Vec<Option<u8>>) -> (r: usize)
    ensures
        r == last_led(row@),
        r < usize::MAX,
{
    let mut i = row.len();
    assert(row@.subrange(0, i as int) =~= row@);
    while i > 0
        invariant
            i <= row@.len(),
            last_led(row@) == last_led(row@.subrange(0, i as int)),
        decreases i,
    {
        assert(row@.subrange(0, i as int).drop_last() =~= row@.subrange(0, i - 1));
        if row[i - 1].is_some() {
            return i - 1;
        }
        i = i - 1;
    }
    0
}

/// Cuts or pads `row` with empty positions to `n` positions.
fn resize_none(row: &mut Vec<Option<u8>>, n: usize)
    ensures
        final(row)@ == resize_row(old(row)@, n as int),
{
    if row.len() >= n {
        row.truncate(n);
    } else {
        while row.len() < n
            invariant
                old(row)@.len() <= row@.len() <= n,
                row@ == old(row)@ + Seq::new(
                    (row@.len() - old(row)@.len()) as nat,
                    |i: int| None::<u8>,
                ),
            decreases n - row.len(),
        {
            row.push(None);
            assert(row@ =~= old(row)@ + Seq::new(
                (row@.len() - old(row)@.len()) as nat,
                |i: int| None::<u8>,
            ));
        }
        assert(row@ =~= resize_row(old(row)@, n as int));
    }
}

} // verus!
