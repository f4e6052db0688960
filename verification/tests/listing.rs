use lsr::cmd::cli::Cli;
use lsr::path::format::{
    is_hidden, CAPTION_CREATED, CAPTION_ICON, CAPTION_MODIFIED, CAPTION_NAME, CAPTION_PERMS,
    CAPTION_SIZE, ICON_DIR, ICON_EXECUTABLE, ICON_FILE,
};
use lsr::path::{
    ColoredCompositePath, ColoredDirOrFile, Column, CompositePath, DirOrFile, NameColumn,
    PathOptions, Paths, RenderStrategy, SizeColumn, Timestamp, UnixPerms,
};

const GREY: &str = "\x1b[38;2;128;128;128m";

fn now() -> Timestamp {
    Timestamp { year: 2023, month: 1, day: 1, hour: 0, minute: 0, second: 0, nanosecond: 0 }
}

fn file(name: &str, size: u64, mode: u32) -> CompositePath {
    CompositePath {
        name: name.to_string(),
        dir_or_file: DirOrFile::File(size),
        created: None,
        modified: Some(Timestamp {
            year: 2020,
            month: 3,
            day: 5,
            hour: 14,
            minute: 7,
            second: 9,
            nanosecond: 0,
        }),
        permissions: Some(UnixPerms { perms: mode, owner_uid: 1000 }),
    }
}

fn dir(name: &str, mode: u32) -> CompositePath {
    CompositePath {
        name: name.to_string(),
        dir_or_file: DirOrFile::Dir,
        created: Some(Timestamp {
            year: 2022,
            month: 11,
            day: 23,
            hour: 8,
            minute: 30,
            second: 0,
            nanosecond: 0,
        }),
        modified: None,
        permissions: Some(UnixPerms { perms: mode, owner_uid: 1000 }),
    }
}

fn entries() -> Vec<CompositePath> {
    vec![file("notes.txt", 1536, 0o644), dir("src", 0o755), file(".env", 12, 0o600), dir(".git", 0o755)]
}

fn all_off() -> PathOptions {
    let mut options = PathOptions::new();
    options.show_size(false).show_permissions(false);
    options
}

#[test]
fn default_options_show_sizes_and_permissions() {
    let options = PathOptions::new();
    assert_eq!(
        options,
        PathOptions {
            show_hidden: false,
            icons: false,
            show_size: true,
            perms: true,
            created: false,
            modified: false,
            si: false,
            header: false,
        }
    );
    assert_eq!(PathOptions::default(), options);
}

#[test]
fn builders_set_their_own_option_only() {
    let mut options = PathOptions::new();
    options.show_hidden(true);
    assert_eq!(options, PathOptions { show_hidden: true, ..PathOptions::new() });
    let mut options = PathOptions::new();
    options.show_icons(true);
    assert_eq!(options, PathOptions { icons: true, ..PathOptions::new() });
    let mut options = PathOptions::new();
    options.show_size(false);
    assert_eq!(options, PathOptions { show_size: false, ..PathOptions::new() });
    let mut options = PathOptions::new();
    options.use_si(true);
    assert_eq!(options, PathOptions { si: true, ..PathOptions::new() });
    let mut options = PathOptions::new();
    options.show_header(true);
    assert_eq!(options, PathOptions { header: true, ..PathOptions::new() });
    let mut options = PathOptions::new();
    options.show_permissions(false);
    assert_eq!(options, PathOptions { perms: false, ..PathOptions::new() });
    let mut options = PathOptions::new();
    options.show_modified(true);
    assert_eq!(options, PathOptions { modified: true, ..PathOptions::new() });
    let mut options = PathOptions::new();
    options.show_created(true);
    assert_eq!(options, PathOptions { created: true, ..PathOptions::new() });
}

#[test]
fn builders_chain() {
    let mut options = PathOptions::new();
    options.show_hidden(true).show_size(false).show_icons(true).use_si(true).show_header(true);
    options.show_created(true).show_modified(true).show_permissions(false);
    assert_eq!(
        options,
        PathOptions {
            show_hidden: true,
            icons: true,
            show_size: false,
            perms: false,
            created: true,
            modified: true,
            si: true,
            header: true,
        }
    );
}

#[test]
fn switches_stand_for_options() {
    let cli = Cli {
        long: true,
        hidden: false,
        si: true,
        icons: true,
        tree: false,
        header: true,
        noperms: true,
        created: false,
        modified: true,
        target: ".".to_string(),
    };
    assert_eq!(
        cli.path_options(),
        PathOptions {
            show_hidden: false,
            icons: false,
            show_size: true,
            perms: false,
            created: false,
            modified: true,
            si: true,
            header: true,
        }
    );
}

#[test]
fn listing_keeps_options_entries_and_user() {
    let mut options = PathOptions::new();
    options.show_hidden(true).use_si(true);
    let listing = Paths::new(options, entries(), 1000);
    assert_eq!(listing.path_options(), PathOptions { show_hidden: true, si: true, ..PathOptions::new() });
    assert_eq!(listing.paths.len(), 4);
    assert_eq!(listing.paths[1].name, "src");
    assert_eq!(listing.current_uid, 1000);
    let listing = Paths::from_iter(PathOptions::new(), Vec::new(), 7);
    assert_eq!(listing.path_options(), PathOptions::new());
    assert!(listing.paths.is_empty());
    assert_eq!(listing.current_uid, 7);
}

#[test]
fn strategy_binds_only_the_name_when_all_else_is_off() {
    let strategy = RenderStrategy::select(&all_off(), false);
    assert_eq!(
        strategy,
        RenderStrategy {
            perms: Column::Off,
            size: SizeColumn::Off,
            created: Column::Off,
            modified: Column::Off,
            icon: Column::Off,
            name: NameColumn::Plain,
        }
    );
    let entry = file("notes.txt", 1536, 0o644);
    assert_eq!(strategy.print_perms(1000, &entry), None);
    assert_eq!(strategy.print_size(&entry), None);
    assert_eq!(strategy.print_created(&now(), &entry), None);
    assert_eq!(strategy.print_modified(&now(), &entry), None);
    assert_eq!(strategy.print_icon(&entry), None);
    assert_eq!(strategy.print_name(&entry), "notes.txt");
    assert_eq!(strategy.print_row(1000, &now(), &entry), "notes.txt");
    assert_eq!(strategy.print_header(), "Filename");
}

#[test]
fn strategy_follows_every_option() {
    for bits in 0u32..64 {
        let flag = |n: u32| bits & (1 << n) != 0;
        let mut options = PathOptions::new();
        options.show_permissions(flag(0)).show_size(flag(1)).use_si(flag(2));
        options.show_created(flag(3)).show_modified(flag(4)).show_icons(flag(5));
        for color in [false, true] {
            let column = |shown: bool| match (shown, color) {
                (false, _) => Column::Off,
                (true, false) => Column::Plain,
                (true, true) => Column::Colored,
            };
            let size = match (flag(1), color, flag(2)) {
                (false, _, _) => SizeColumn::Off,
                (true, false, false) => SizeColumn::Binary,
                (true, false, true) => SizeColumn::Decimal,
                (true, true, false) => SizeColumn::ColoredBinary,
                (true, true, true) => SizeColumn::ColoredDecimal,
            };
            let expected = RenderStrategy {
                perms: column(flag(0)),
                size,
                created: column(flag(3)),
                modified: column(flag(4)),
                icon: column(flag(5)),
                name: if color { NameColumn::Colored } else { NameColumn::Plain },
            };
            assert_eq!(RenderStrategy::select(&options, color), expected);
            assert_eq!(RenderStrategy::select(&options, color), expected);
        }
    }
}

#[test]
fn plain_listing_of_visible_entries() {
    let listing = Paths::new(PathOptions::new(), entries(), 1000);
    assert_eq!(
        listing.print(false, &now()),
        vec!["rw-r--r-- 1.5KiB  notes.txt", "rwxr-xr-x -       src"]
    );
}

#[test]
fn hidden_entries_are_listed_only_on_request() {
    for bits in 0u32..64 {
        let flag = |n: u32| bits & (1 << n) != 0;
        for color in [false, true] {
            for show_hidden in [false, true] {
                let mut options = PathOptions::new();
                options.show_permissions(flag(0)).show_size(flag(1)).use_si(flag(2));
                options.show_created(flag(3)).show_modified(flag(4)).show_icons(flag(5));
                options.show_hidden(show_hidden);
                let lines = Paths::new(options, entries(), 1000).print(color, &now());
                let shows = |name: &str| lines.iter().any(|line| line.contains(name));
                assert!(shows("notes.txt"));
                assert!(shows("src"));
                assert_eq!(shows(".env"), show_hidden);
                assert_eq!(shows(".git"), show_hidden);
                assert_eq!(lines.len(), if show_hidden { 4 } else { 2 });
            }
        }
    }
}

#[test]
fn hidden_names_start_with_a_dot() {
    assert!(is_hidden(".env"));
    assert!(is_hidden("."));
    assert!(is_hidden(".."));
    assert!(!is_hidden("env."));
    assert!(!is_hidden(""));
    assert!(!is_hidden("\u{fffd}.env"));
}

#[test]
fn listing_with_every_column_and_header() {
    let mut options = PathOptions::new();
    options.show_hidden(true).show_icons(true).show_header(true);
    options.show_created(true).show_modified(true);
    let lines = Paths::new(options, entries(), 1000).print(false, &now());
    let blank = " ".repeat(12);
    assert_eq!(
        lines,
        vec![
            "Perms     Size    Created      Modified       Filename".to_string(),
            format!("rw-r--r-- 1.5KiB  {}  5 Mar  2020 {} notes.txt", blank, ICON_FILE),
            format!("rwxr-xr-x -       23 Nov 08:30 {} {} src", blank, ICON_DIR),
            format!("rw------- 12B     {}  5 Mar  2020 {} .env", blank, ICON_FILE),
            format!("rwxr-xr-x -       23 Nov 08:30 {} {} .git", blank, ICON_DIR),
        ]
    );
}

#[test]
fn header_lists_the_captions_of_active_columns() {
    assert_eq!(CAPTION_PERMS, "Perms    ");
    assert_eq!(CAPTION_SIZE, "Size   ");
    assert_eq!(CAPTION_CREATED, "Created     ");
    assert_eq!(CAPTION_MODIFIED, "Modified    ");
    assert_eq!(CAPTION_ICON, " ");
    assert_eq!(CAPTION_NAME, "Filename");
    let mut options = PathOptions::new();
    options.show_header(true);
    let lines = Paths::new(options, Vec::new(), 0).print(false, &now());
    assert_eq!(lines, vec!["Perms     Size    Filename"]);
    let mut options = all_off();
    options.show_header(true).show_modified(true);
    let lines = Paths::new(options, Vec::new(), 0).print(true, &now());
    assert_eq!(lines, vec!["Modified     Filename"]);
    let lines = Paths::new(PathOptions::new(), Vec::new(), 0).print(false, &now());
    assert!(lines.is_empty());
}

#[test]
fn sizes_in_decimal_units() {
    let mut options = PathOptions::new();
    options.use_si(true).show_permissions(false);
    let lines = Paths::new(options, entries(), 1000).print(false, &now());
    assert_eq!(lines, vec!["1.5KB   notes.txt", "-       src"]);
    assert_eq!(DirOrFile::File(1536).to_string(), "1.5KiB ");
    assert_eq!(DirOrFile::File(1536).to_string_si(), "1.5KB  ");
    assert_eq!(DirOrFile::File(0).to_string(), "-      ");
    assert_eq!(DirOrFile::Dir.to_string(), "-      ");
    assert_eq!(DirOrFile::Dir.to_string_si(), "-      ");
    assert_eq!(DirOrFile::File(1023 * 1024 + 1000).to_string(), "1024.0KiB");
}

#[test]
fn coloured_sizes() {
    assert_eq!(
        ColoredDirOrFile(DirOrFile::File(1536)).to_string(),
        "\x1b[1m\x1b[32m1.5KiB \x1b[39m\x1b[0m"
    );
    assert_eq!(
        ColoredDirOrFile(DirOrFile::File(1536)).to_string_si(),
        "\x1b[1m\x1b[32m1.5KB  \x1b[39m\x1b[0m"
    );
    assert_eq!(ColoredDirOrFile(DirOrFile::Dir).to_string(), format!("{}-      \x1b[39m", GREY));
    assert_eq!(ColoredDirOrFile(DirOrFile::Dir).to_string_si(), format!("{}-      \x1b[39m", GREY));
}

#[test]
fn icons_follow_kind_and_owner_rights() {
    assert_eq!(ICON_DIR, "\u{f115}");
    assert_eq!(ICON_FILE, "\u{f016}");
    assert_eq!(ICON_EXECUTABLE, "\u{eae9}");
    assert_eq!(dir("src", 0o755).icon().to_string(), ICON_DIR);
    assert_eq!(dir("src", 0o000).icon().to_string(), ICON_DIR);
    assert_eq!(file("a", 1, 0o644).icon().to_string(), ICON_FILE);
    assert_eq!(file("a", 1, 0o744).icon().to_string(), ICON_EXECUTABLE);
    assert_eq!(file("a", 1, 0o011).icon().to_string(), ICON_FILE);
    let mut unknown = file("a", 1, 0o777);
    unknown.permissions = None;
    assert_eq!(unknown.icon().to_string(), ICON_FILE);
}

#[test]
fn coloured_icons_follow_kind_and_owner_rights() {
    let icon = |entry: CompositePath| entry.icon().colored().to_string();
    assert_eq!(icon(dir("src", 0o755)), format!("\x1b[1m\x1b[34m{}\x1b[39m\x1b[0m", ICON_DIR));
    assert_eq!(icon(dir("src", 0o355)), format!("\x1b[1m\x1b[33m{}\x1b[39m\x1b[0m", ICON_DIR));
    assert_eq!(icon(file("a", 1, 0o244)), format!("{}{}\x1b[39m", GREY, ICON_FILE));
    assert_eq!(icon(file("a", 1, 0o344)), format!("{}{}\x1b[39m", GREY, ICON_EXECUTABLE));
    assert_eq!(icon(file("a", 1, 0o744)), format!("\x1b[33m{}\x1b[39m", ICON_EXECUTABLE));
    assert_eq!(icon(file("a", 1, 0o644)), ICON_FILE);
    let mut unknown = dir("src", 0o000);
    unknown.permissions = None;
    assert_eq!(icon(unknown), format!("\x1b[1m\x1b[34m{}\x1b[39m\x1b[0m", ICON_DIR));
}

#[test]
fn coloured_names_follow_kind_and_owner_rights() {
    let name = |entry: CompositePath| ColoredCompositePath(&entry).to_string();
    assert_eq!(name(dir("src", 0o755)), "\x1b[1m\x1b[34msrc\x1b[39m\x1b[0m");
    assert_eq!(name(dir("src", 0o000)), "\x1b[1m\x1b[34msrc\x1b[39m\x1b[0m");
    assert_eq!(name(file("a", 1, 0o244)), format!("{}a\x1b[39m", GREY));
    assert_eq!(name(file("a", 1, 0o344)), format!("{}\x1b[1ma\x1b[0m\x1b[39m", GREY));
    assert_eq!(name(file("a", 1, 0o744)), "\x1b[32m\x1b[1ma\x1b[0m\x1b[39m");
    assert_eq!(name(file("a", 1, 0o644)), "a");
    let mut unknown = file("a", 1, 0o000);
    unknown.permissions = None;
    assert_eq!(name(unknown), "a");
    assert_eq!(file("a", 1, 0o644).to_string(), "a");
}

#[test]
fn coloured_listing() {
    let mut options = PathOptions::new();
    options.show_modified(true).show_created(true);
    let lines = Paths::new(options, entries(), 1000).print(true, &now());
    let blank = " ".repeat(12);
    let perms = UnixPerms { perms: 0o644, owner_uid: 1000 }.print_color(1000);
    assert_eq!(
        lines[0],
        format!(
            "{} \x1b[1m\x1b[32m1.5KiB \x1b[39m\x1b[0m {} \x1b[35m 5 Mar  2020\x1b[39m notes.txt",
            perms, blank
        )
    );
    let perms = UnixPerms { perms: 0o755, owner_uid: 1000 }.print_color(1000);
    assert_eq!(
        lines[1],
        format!(
            "{} {}-      \x1b[39m \x1b[34m23 Nov 08:30\x1b[39m {} \x1b[1m\x1b[34msrc\x1b[39m\x1b[0m",
            perms, GREY, blank
        )
    );
    assert_eq!(lines.len(), 2);
}

#[test]
fn unknown_metadata_leaves_blanks() {
    let mut entry = file("notes.txt", 1536, 0o644);
    entry.permissions = None;
    entry.modified = None;
    let mut options = PathOptions::new();
    options.show_modified(true);
    for color in [false, true] {
        let strategy = RenderStrategy::select(&options, color);
        assert_eq!(strategy.print_perms(0, &entry), Some(" ".repeat(9)));
        assert_eq!(strategy.print_modified(&now(), &entry), Some(" ".repeat(12)));
    }
    let lines = Paths::new(options, vec![entry], 0).print(false, &now());
    assert_eq!(lines, vec![format!("{} 1.5KiB  {} notes.txt", " ".repeat(9), " ".repeat(12))]);
}
