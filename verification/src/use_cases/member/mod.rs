pub mod add_member;
pub mod get_member;
pub mod list_members;
pub mod remove_member;
pub mod update_member;

pub use add_member::{AddMemberUseCase, MemberNamedId, MembershipResponse};
pub use get_member::GetMemberUseCase;
pub use list_members::{ListMembersUseCase, MemberListResponse, MemberRoleItem, MembershipItem};
pub use remove_member::RemoveMemberUseCase;
pub use update_member::UpdateMemberUseCase;
