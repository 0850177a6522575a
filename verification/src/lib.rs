//! Point-in-time resource statistics of a control group, read from the text
//! files that the kernel exposes for each controller.
//!
//! The library never touches the filesystem. A caller reads the files that a
//! parser names and hands them over as a [`files::CgroupDir`]; every parser
//! is a function of that value alone.

pub mod blkio;
pub mod cpu;
pub mod error;
pub mod files;
pub mod hugepages;
pub mod hugetlb;
pub mod keyed;
pub mod memory;
pub mod stats;
pub mod text;
