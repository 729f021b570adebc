pub mod gtk_icon_loader;
pub mod timeutil;
