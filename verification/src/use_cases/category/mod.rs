pub mod create_category;
pub mod delete_category;
pub mod list_categories;

pub use list_categories::{CategoryItem, CategoryListResponse, ListCategoriesUseCase, NamedId};

pub use create_category::{
    CategoryDetail as CreateCategoryDetail, CreateCategoryResponse, CreateCategoryUseCase,
};

pub use delete_category::DeleteCategoryUseCase;
