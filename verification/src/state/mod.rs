pub mod wrapper_authority;

pub use wrapper_authority::AuthorityAccount;
pub use wrapper_authority::AuthorityRole;
pub use wrapper_authority::AuthoritySlot;
pub use wrapper_authority::AuthorizationProof;
pub use wrapper_authority::WrapperSwapAuthority;
