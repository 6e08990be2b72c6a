//! Verified core of a small backend: it checks and looks up creature records
//! through an upstream data service, and decides how the files of a prebuilt
//! single-page application are served.
//!
//! The library reads no file and sends no request. Where an answer needs a
//! document of the upstream service or a file of the bundle, the library
//! says which one, the caller gets it, and the library decides what follows
//! from what the caller got. What it decides is stated in the contracts of
//! its functions, over the models that the types have as their views.
//!
//! - [`identifier`]: the test that every identifier must pass.
//! - [`fetch`]: the two lookups that give the record of one creature.
//! - [`record`]: the record, and how it is put together.
//! - [`search`]: the search for one creature, and its response.
//! - [`random`]: the sample of creatures drawn at random, and its response.
//! - [`response`]: the responses of the two services.
//! - [`asset`]: the files of the single-page application.
//! - [`json`]: the documents that come from the upstream service.
//! - [`text`]: helpers on characters.

pub mod asset;
pub mod fetch;
pub mod identifier;
pub mod json;
pub mod random;
pub mod record;
pub mod response;
pub mod search;
pub mod text;
