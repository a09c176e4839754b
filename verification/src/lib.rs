//! A minimal login demo library: a credential verifier (a static pair, and
//! a store-backed variant behind a swappable single-method lookup), and the
//! pure page and flash computations around it.

mod config;
mod credentials;
mod outcome;
mod pages;
mod store;

pub use config::AppConfig;
pub use config::ConfigError;
pub use config::check_config;
pub use credentials::Credentials;
pub use credentials::LoginForm;
pub use credentials::static_pair_accepts;
pub use credentials::verify;
pub use credentials::verify_decides;
pub use credentials::lemma_verify_pure;
pub use outcome::FlashData;
pub use outcome::VerificationOutcome;
pub use outcome::outcome_equiv;
pub use outcome::outcome_flash;
pub use pages::ReceptionContext;
pub use pages::ResultContext;
pub use pages::index;
pub use pages::login;
pub use pages::login_result;
pub use pages::reception;
pub use store::FixedRepository;
pub use store::LookupError;
pub use store::UserRepository;
pub use store::UserService;
pub use store::Users;
pub use store::lemma_lookup_deterministic;
pub use store::lemma_service_login_deterministic;
pub use store::lemma_service_verify_deterministic;
pub use store::lemma_verify_lookup_pure;
pub use store::login_from_lookup;
pub use store::lookup_decides;
pub use store::lookup_equiv;
pub use store::repository_lookup_admits;
pub use store::service_login_decides;
pub use store::service_verify_decides;
pub use store::verify_lookup;
