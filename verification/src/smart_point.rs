pub mod box_def;
pub mod ref_cell_def;
