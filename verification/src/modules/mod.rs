/// All builtin widgets
pub mod widget;
/// Modules that only arrange others
pub mod decoration;
/// Editors for the fields of a value
pub mod struct_editing;
