//! Ready-made example problems and the small state types they use: thin
//! consumers of the solver contract, convenient for exercising the
//! steppers.

mod ivp;

pub use ivp::get_exponential_problem;
pub use ivp::ExponentialDerivative;
pub use ivp::ScalarState;
pub use ivp::Fn;
pub use ivp::Vector2;
