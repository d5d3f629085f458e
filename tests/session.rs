use docbrowse::catalog::{CatalogEntry, Documents};
use docbrowse::dispatch::{viewer_for, Viewer};
use docbrowse::error::BrowseError;
use docbrowse::metadata::extract_metadata;
use docbrowse::session::{command_for, Action, Command, Key};

fn catalog(names: &[&str]) -> Documents {
    let entries: Vec<CatalogEntry> = names
        .iter()
        .map(|n| CatalogEntry {
            path: format!("/docs/{}", n),
            file_name: n.to_string(),
            metadata: extract_metadata("", true),
        })
        .collect();
    Documents::new(&entries)
}

#[test]
fn pdf_goes_to_pdf_viewer() {
    assert_eq!(viewer_for("pdf"), Viewer::Pdf);
    assert_eq!(Viewer::Pdf.program(), "zathura");
}

#[test]
fn other_extensions_go_to_generic_opener() {
    assert_eq!(viewer_for("txt"), Viewer::Generic);
    assert_eq!(viewer_for(""), Viewer::Generic);
    assert_eq!(viewer_for("pd"), Viewer::Generic);
    assert_eq!(viewer_for("pdfx"), Viewer::Generic);
    assert_eq!(Viewer::Generic.program(), "xdg-open");
}

#[test]
fn open_selected_pdf() {
    let docs = catalog(&["a.pdf", "b.txt"]);
    let req = docs.open().unwrap();
    assert_eq!(req.viewer, Viewer::Pdf);
    assert_eq!(req.path, "/docs/a.pdf");
    assert_eq!(req.program(), "zathura");
}

#[test]
fn open_selected_other() {
    let mut docs = catalog(&["a.pdf", "b.txt", "C.PDF"]);
    docs.next().unwrap();
    let req = docs.open().unwrap();
    assert_eq!(req.viewer, Viewer::Generic);
    assert_eq!(req.path, "/docs/b.txt");
    assert_eq!(req.program(), "xdg-open");
    docs.next().unwrap();
    assert_eq!(docs.open().unwrap().viewer, Viewer::Pdf);
}

#[test]
fn open_without_selection_is_nothing() {
    let mut docs = catalog(&["a.pdf"]);
    docs.unselect();
    assert!(docs.open().is_none());
}

#[test]
fn key_bindings() {
    assert_eq!(command_for(Key::Char('q')), Command::Quit);
    assert_eq!(command_for(Key::Char('j')), Command::Next);
    assert_eq!(command_for(Key::Up), Command::Next);
    assert_eq!(command_for(Key::Char('k')), Command::Prev);
    assert_eq!(command_for(Key::Down), Command::Prev);
    assert_eq!(command_for(Key::Char('o')), Command::Open);
    assert_eq!(command_for(Key::Char('l')), Command::Open);
    assert_eq!(command_for(Key::Char('x')), Command::Ignore);
    assert_eq!(command_for(Key::Other), Command::Ignore);
}

#[test]
fn handle_moves_and_opens() {
    let mut docs = catalog(&["a.pdf", "b.txt", "c.pdf"]);
    assert!(matches!(docs.handle(Key::Char('j')), Action::Redraw));
    assert_eq!(docs.selected(), Some(1));
    assert!(matches!(docs.handle(Key::Down), Action::Redraw));
    assert_eq!(docs.selected(), Some(0));
    assert!(matches!(docs.handle(Key::Char('k')), Action::Redraw));
    assert_eq!(docs.selected(), Some(2));
    match docs.handle(Key::Char('o')) {
        Action::Open(req) => {
            assert_eq!(req.viewer, Viewer::Pdf);
            assert_eq!(req.path, "/docs/c.pdf");
        }
        _ => panic!("expected an open action"),
    }
    assert!(matches!(docs.handle(Key::Char('z')), Action::Redraw));
    assert_eq!(docs.selected(), Some(2));
    assert!(matches!(docs.handle(Key::Char('q')), Action::Quit));
}

#[test]
fn handle_on_empty_catalog_reports() {
    let mut docs = catalog(&[]);
    assert!(matches!(docs.handle(Key::Up), Action::Report(BrowseError::EmptyCatalog)));
    assert!(matches!(docs.handle(Key::Char('k')), Action::Report(BrowseError::EmptyCatalog)));
    assert!(matches!(docs.handle(Key::Char('l')), Action::Redraw));
    assert_eq!(docs.selected(), None);
}

#[test]
fn error_messages() {
    assert_eq!(BrowseError::DirectoryUnreadable.message(), "the directory cannot be read");
    assert_eq!(BrowseError::EmptyCatalog.message(), "there are no documents to move through");
    assert_eq!(BrowseError::OpenFailed.message(), "the viewer could not be started");
}
