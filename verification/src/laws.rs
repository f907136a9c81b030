//! What holds of the machine as a whole: laws about whole runs, about several
//! operations, and about every state.
pub mod answers;
pub mod asked;
pub mod attributes;
pub mod calls;
pub mod comparisons;
pub mod conversions;
pub mod exits;
pub mod frames;
pub mod importing;
pub mod inheritance;
pub mod inplace;
pub mod isolation;
pub mod lifecycle;
pub mod lookup;
pub mod modules;
pub mod objects;
pub mod operands;
pub mod operators;
pub mod steps;
pub mod steps_modules;
pub mod steps_resume;
pub mod taken;
pub mod texts;
