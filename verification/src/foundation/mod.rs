pub mod hash;
pub mod jwt;
pub mod maven;
pub mod options;
pub mod os;
pub mod rules;
pub mod paths;
pub mod pkce;
pub mod semver;
pub mod text;
pub mod time;
pub mod urls;
