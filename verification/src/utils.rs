pub mod gtk_icon_loader;
pub mod gtkiconloader;
pub mod timeutils;
