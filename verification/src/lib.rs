pub mod records;
pub mod store;

pub use records::ActorId;
pub use records::Comment;
pub use records::Like;
pub use records::Post;
pub use records::User;
pub use store::SocialMedia;
