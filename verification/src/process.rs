//! Per-project process records: how a policy document becomes records, and
//! the questions asked of one record or of the records an issue touches.

pub mod combined;
pub mod features;
pub mod info;
pub mod laws;
pub mod lookup;
pub mod parse;

pub use combined::CombinedProcessInfo;
pub use combined::CombinedView;
pub use features::ProcessFeatures;
pub use features::ProcessWrapper;
pub use features::ProcessWrapperView;
pub use info::ProcessInfo;
pub use info::ProcessInfoView;
pub use lookup::process_from_projects;
pub use lookup::process_matching_project;
pub use parse::process_from_contents;
pub use parse::process_from_table;
