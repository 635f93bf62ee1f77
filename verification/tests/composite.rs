use design_patterns::composite::enum_base::Entry;

const LISTING: &str = "/root (31500)\n\
/root/bin (30000)\n\
/root/bin/vi (10000)\n\
/root/bin/latex (20000)\n\
/root/tmp (0)\n\
/root/usr (1500)\n\
/root/usr/yuki (300)\n\
/root/usr/yuki/diary.html (100)\n\
/root/usr/yuki/Composite.java (200)\n\
/root/usr/hanako (300)\n\
/root/usr/hanako/memo.tex (300)\n\
/root/usr/tomura (900)\n\
/root/usr/tomura/game.doc (400)\n\
/root/usr/tomura/junk.mail (500)\n";

#[test]
fn composite_enum_base_test() {
    let mut rootdir = Entry::of_directory("root");
    let bindir = Entry::of_directory("bin");
    let tmpdir = Entry::of_directory("tmp");
    let usrdir = Entry::of_directory("usr");

    rootdir.as_directory_mut().unwrap().add(bindir);
    rootdir.as_directory_mut().unwrap().add(tmpdir);
    rootdir.as_directory_mut().unwrap().add(usrdir);

    {
        let bindir_ref = rootdir.as_directory_mut().unwrap().entry_mut(0);
        bindir_ref.as_directory_mut().unwrap().add(Entry::of_file("vi", 10000));
        bindir_ref.as_directory_mut().unwrap().add(Entry::of_file("latex", 20000));
    }

    let yuki = Entry::of_directory("yuki");
    let hanako = Entry::of_directory("hanako");
    let tomura = Entry::of_directory("tomura");

    {
        let usrdir_ref = rootdir.as_directory_mut().unwrap().entry_mut(2);
        usrdir_ref.as_directory_mut().unwrap().add(yuki);
        usrdir_ref.as_directory_mut().unwrap().add(hanako);
        usrdir_ref.as_directory_mut().unwrap().add(tomura);
    }

    {
        let usrdir_ref = rootdir.as_directory_mut().unwrap().entry_mut(2);
        let yuki_ref = usrdir_ref.as_directory_mut().unwrap().entry_mut(0);
        yuki_ref.as_directory_mut().unwrap().add(Entry::of_file("diary.html", 100));
        yuki_ref.as_directory_mut().unwrap().add(Entry::of_file("Composite.java", 200));
    }

    {
        let usrdir_ref = rootdir.as_directory_mut().unwrap().entry_mut(2);
        let hanako_ref = usrdir_ref.as_directory_mut().unwrap().entry_mut(1);
        hanako_ref.as_directory_mut().unwrap().add(Entry::of_file("memo.tex", 300));
    }

    {
        let usrdir_ref = rootdir.as_directory_mut().unwrap().entry_mut(2);
        let tomura_ref = usrdir_ref.as_directory_mut().unwrap().entry_mut(2);
        tomura_ref.as_directory_mut().unwrap().add(Entry::of_file("game.doc", 400));
        tomura_ref.as_directory_mut().unwrap().add(Entry::of_file("junk.mail", 500));
    }

    let listing = rootdir.print_line();
    println!("{}", listing);
    assert_eq!(listing, LISTING);
    assert_eq!(rootdir.get_size(), 31500);
    assert_eq!(rootdir.get_name(), "root");
    assert_eq!(rootdir.to_string(), "root (31500)");
    assert!(rootdir.as_file().is_none());
    assert!(rootdir.as_directory().is_some());
}

#[test]
fn composite_enum_entry_changed_in_place() {
    let mut dir = Entry::of_directory("d");
    dir.as_directory_mut().unwrap().add(Entry::of_file("a", 1));
    dir.as_directory_mut().unwrap().add(Entry::of_file("b", 2));
    *dir.as_directory_mut().unwrap().entry_mut(0) = Entry::of_file("c", 5);
    assert_eq!(dir.print_line(), "/d (7)\n/d/c (5)\n/d/b (2)\n");
}

#[test]
fn composite_enum_file_alone() {
    let mut file = Entry::of_file("vi", 10000);
    assert_eq!(file.get_name(), "vi");
    assert_eq!(file.get_size(), 10000);
    assert_eq!(file.to_string(), "vi (10000)");
    assert_eq!(file.print_line(), "/vi (10000)\n");
    assert_eq!(file.as_file().unwrap().get_size(), 10000);
    assert!(file.as_directory().is_none());
    assert!(file.as_directory_mut().is_none());
    let empty = Entry::of_directory("d");
    assert_eq!(empty.get_size(), 0);
    assert_eq!(empty.print_line(), "/d (0)\n");
}
