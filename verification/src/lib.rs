//! A square-spiral walk over the integers.
//!
//! A cursor starts near the middle of a fixed grid and walks a square spiral:
//! right, up, left, down, with the side length growing by one every two
//! turns.  Each step consumes the next integer; prime integers leave a dot
//! at the cursor's cell.  The walk itself and the primality test live here;
//! drawing the dots is left to the caller.

pub mod primes;
pub mod walk;
