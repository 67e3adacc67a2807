pub mod caps;
pub mod flowdef;
pub mod json;
pub mod lifecycle;
pub mod mxlsink;
pub mod mxlsrc;
pub mod planar;
pub mod property;
pub mod text;
pub mod timing;
