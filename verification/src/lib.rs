pub mod bitmap;
pub mod encode;
pub mod model;
pub mod text;

pub use bitmap::image_to_zpl;

pub use model::BarcodeType;
pub use model::Bitmap;
pub use model::ComponentType;
pub use model::Element;
pub use model::FontName;
pub use model::IconType;
pub use model::Label;
pub use model::LabelBuilder;
pub use model::SettingType;
pub use model::ShapeType;
