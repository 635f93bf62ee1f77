use design_patterns::composite::generic_base::{Directory, Entry, File};

#[test]
fn composite_generic_base_test() {
    let mut rootdir = Directory::new("root");
    let bindir = Directory::new("bin");
    let tmpdir = Directory::new("tmp");
    let usrdir = Directory::new("usr");

    rootdir.add(bindir);
    rootdir.add(tmpdir);
    rootdir.add(usrdir);

    {
        let bindir_ref = rootdir.entry_mut(0);
        bindir_ref.add(File::new("vi", 10000));
        bindir_ref.add(File::new("latex", 20000));
    }

    let mut yuki = Directory::new("yuki");
    let mut hanako = Directory::new("hanako");
    let mut tomura = Directory::new("tomura");
    yuki.add(File::new("diary.html", 100));
    yuki.add(File::new("Composite.java", 200));
    hanako.add(File::new("memo.tex", 300));
    tomura.add(File::new("game.doc", 400));
    tomura.add(File::new("junk.mail", 500));

    let listing = rootdir.print_line();
    println!("{}", listing);
    assert_eq!(
        listing,
        "/root (30000)\n/root/bin (30000)\n/root/bin/vi (10000)\n/root/bin/latex (20000)\n/root/tmp (0)\n/root/usr (0)\n"
    );
    assert_eq!(yuki.get_size(), 300);
    assert_eq!(hanako.print_line(), "/hanako (300)\n/hanako/memo.tex (300)\n");
    assert_eq!(tomura.to_string(), "tomura (900)");
    assert_eq!(tomura.get_name(), "tomura");
}
