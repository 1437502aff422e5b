//! A virtualized, scrollable table for character-grid surfaces: an
//! arbitrarily large row collection is rendered into a bounded
//! viewport without materializing every row, while scroll offsets,
//! column layout and selection stay consistent as the data is paged,
//! added or removed.
//!
//! The row data comes in three shapes behind one forward cursor:
//! pre-built rows, a random-access facade, or a forward-only
//! iterator. After each rendered page the maximum scroll offset is
//! re-established under one of three regimes, depending on whether
//! the source reports its row count and whether a full scan is
//! acceptable. Selections come as a single row, an anchor/lead range
//! with a retired set, or a single cell; a row editor overlay can
//! mutate the backing collection while the bookkeeping follows.
//!
//! ratatui solves the column layout and carries the character grid
//! and the styles; raw input decoding stays outside, the table only
//! consumes abstract key and mouse events.

pub mod data;
pub mod edit;
pub mod edit_table;
pub mod event;
pub mod layout;
pub mod render;
pub mod scroll;
pub mod selection;
pub mod surface;
pub mod table;
pub mod table_state;
pub mod textdata;
