//! What a text terminal needs to know to show a frame: whether it is large
//! enough, and which cell to paint in which colour.

use vstd::prelude::*;
use vstd::string::StringExecFns;
use vstd::std_specs::convert::FromSpecImpl;
use crate::text::{decimal_text, write_decimal};

verus! {

/// The fewest columns in which a frame can be shown.
pub const MIN_WIDTH: u16 = 64;

/// The fewest rows in which a frame can be shown.
pub const MIN_HEIGHT: u16 = 32;

/// A terminal on which frames are painted cell by cell.
#[derive(Debug)]
pub struct Terminal;

/// What a display offers to the machine's host.
pub trait TerminalBackend {
    type Error;

    fn clear_screen(&mut self) -> Result<(), Self::Error>;

    fn draw_screen(&mut self, display: &[[u8; 32]; 64]) -> Result<(), Self::Error>;
}

#[derive(Clone, Debug)]
pub enum TerminalError {
    ErrorKind(String),
}

/// One cell of the terminal to paint: its column, its row, and whether the
/// pixel there is on.
#[derive(Clone, Copy, Debug, PartialEq, Eq, Structural)]
pub struct Cell {
    pub column: u16,
    pub row: u16,
    pub lit: bool,
}

/// What is said of a terminal of `w` columns and `h` rows that is too small.
pub open spec fn too_small_text(w: u16, h: u16) -> Seq<char> {
    "terminal is too small to display screen: "@ + decimal_text(w as nat) + "x"@ + decimal_text(
        h as nat,
    )
}

/// What is said of a frame with a pixel that is neither off nor on.
pub open spec fn bad_pixel_text() -> Seq<char> {
    "display pixel set to value other than 0 or 1"@
}

/// What is said of a failure of the terminal's input or output.
pub open spec fn io_error_text() -> Seq<char> {
    "received an io error"@
}

/// Every pixel of the frame is 0 or 1.
pub open spec fn frame_is_binary(display: [[u8; 32]; 64]) -> bool {
    forall|x: int, y: int| 0 <= x < 64 && 0 <= y < 32 ==> #[trigger] display@[x]@[y] <= 1
}

impl TerminalError {
    /// The text that the error holds.
    pub open spec fn text(&self) -> Seq<char> {
        match self {
            TerminalError::ErrorKind(s) => s@,
        }
    }

    /// An error that reports a failure of the terminal's input or output.
    pub fn io() -> (e: TerminalError)
        ensures
            e.text() == io_error_text(),
    {
        TerminalError::ErrorKind(String::from_str("received an io error"))
    }

    /// The error as a line of text: `error: `, what the error holds, and a
    /// line feed.
    pub fn to_string(&self) -> (s: String)
        ensures
            s@ == "error: "@ + self.text() + "\n"@,
    {
        let mut line = String::from_str("error: ");
        match self {
            TerminalError::ErrorKind(s) => line.append(s.as_str()),
        }
        line.append("\n");
        line
    }
}

/// `std::io::Error`, of which nothing is read here.
#[verifier::external_type_specification]
#[verifier::external_body]
pub struct ExIoError(std::io::Error);

impl From<std::io::Error> for TerminalError {
    fn from(err: std::io::Error) -> (e: TerminalError)
        ensures
            e.text() == io_error_text(),
    {
        TerminalError::io()
    }
}

impl FromSpecImpl<std::io::Error> for TerminalError {
    open spec fn obeys_from_spec() -> bool {
        false
    }

    open spec fn from_spec(err: std::io::Error) -> TerminalError {
        arbitrary()
    }
}

impl Terminal {
    /// Accepts a terminal of `w` columns and `h` rows where it has room for
    /// a frame of 64 columns and 32 rows.
    pub fn check_bounds(&self, w: u16, h: u16) -> (res: Result<(), TerminalError>)
        ensures
            w >= 64 && h >= 32 ==> res.is_ok(),
            w < 64 || h < 32 ==> res.is_err() && res.unwrap_err().text() == too_small_text(w, h),
    {
        if w < MIN_WIDTH || h < MIN_HEIGHT {
            let mut msg = String::from_str("terminal is too small to display screen: ");
            msg.append(write_decimal(w).as_str());
            msg.append("x");
            msg.append(write_decimal(h).as_str());
            return Err(TerminalError::ErrorKind(msg));
        }
        Ok(())
    }

    /// The cells to paint for a frame, column by column and within a column
    /// from the top row down. A frame with a pixel other than 0 or 1 is refused.
    pub fn frame_cells(&self, display: &[[u8; 32]; 64]) -> (res: Result<Vec<Cell>, TerminalError>)
        ensures
            frame_is_binary(*display) ==> res.is_ok() && res.unwrap()@.len() == 2048 && forall|
                x: int,
                y: int,
            |
                0 <= x < 64 && 0 <= y < 32 ==> #[trigger] res.unwrap()@[x * 32 + y] == (Cell {
                    column: x as u16,
                    row: y as u16,
                    lit: display@[x]@[y] == 1,
                }),
            !frame_is_binary(*display) ==> res.is_err() && res.unwrap_err().text()
                == bad_pixel_text(),
    {
        let mut cells: Vec<Cell> = Vec::new();
        let mut i: usize = 0;
        while i < 64
            invariant
                i <= 64,
                cells@.len() == i * 32,
                forall|x: int, y: int|
                    0 <= x < i && 0 <= y < 32 ==> #[trigger] display@[x]@[y] <= 1,
                forall|x: int, y: int|
                    0 <= x < i && 0 <= y < 32 ==> #[trigger] cells@[x * 32 + y] == (Cell {
                        column: x as u16,
                        row: y as u16,
                        lit: display@[x]@[y] == 1,
                    }),
            decreases 64 - i,
        {
            let mut j: usize = 0;
            while j < 32
                invariant
                    i < 64,
                    j <= 32,
                    cells@.len() == i * 32 + j,
                    forall|x: int, y: int|
                        0 <= x < 64 && 0 <= y < 32 && (x < i || (x == i && y < j))
                            ==> #[trigger] display@[x]@[y] <= 1,
                    forall|x: int, y: int|
                        0 <= x < 64 && 0 <= y < 32 && (x < i || (x == i && y < j))
                            ==> #[trigger] cells@[x * 32 + y] == (Cell {
                            column: x as u16,
                            row: y as u16,
                            lit: display@[x]@[y] == 1,
                        }),
                decreases 32 - j,
            {
                let pix = display[i][j];
                if pix > 1 {
                    assert(display@[i as int]@[j as int] > 1);
                    return Err(
                        TerminalError::ErrorKind(
                            String::from_str("display pixel set to value other than 0 or 1"),
                        ),
                    );
                }
                cells.push(Cell { column: i as u16, row: j as u16, lit: pix == 1 });
                j += 1;
            }
            i += 1;
        }
        Ok(cells)
    }
}

} // verus!
