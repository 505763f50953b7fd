use vstd::prelude::*;
use vstd::string::*;

verus! {

/// The texts held by a list of strings.
pub open spec fn lines_of(v: Seq<String>) -> Seq<Seq<char>> {
    v.map_values(|s: String| s@)
}

/// Something that can be shown; showing returns the lines it reports.
pub trait Image {
    spec fn shown(&self) -> Seq<Seq<char>>;

    fn display(&self) -> (r: Vec<String>)
        ensures
            lines_of(r@) == self.shown(),
    ;
}

fn join2(a: &str, b: &String) -> (r: String)
    ensures
        r@ == a@ + b@,
{
    let mut s = String::from_str(a);
    s.append(b.as_str());
    s
}

fn join3(a: &str, b: &String, c: &str) -> (r: String)
    ensures
        r@ == a@ + b@ + c@,
{
    let mut s = join2(a, b);
    s.append(c);
    s
}

/// The line reported when an image file is opened.
pub open spec fn opened_line(f: Seq<char>) -> Seq<char> {
    "Loading image: "@ + f
}

/// The lines a real image reports when shown.
pub open spec fn real_lines(f: Seq<char>, loaded: bool) -> Seq<Seq<char>> {
    let tail = seq!["Loading "@ + f + " from disk (expensive operation)"@, "Displaying "@ + f];
    if loaded {
        tail
    } else {
        seq!["First time access - loading image"@] + tail
    }
}

/// An image read from disk whenever it is shown.
pub struct RealImage {
    filename: String,
    loaded: bool,
}

impl RealImage {
    pub closed spec fn file(&self) -> Seq<char> {
        self.filename@
    }

    pub closed spec fn is_loaded(&self) -> bool {
        self.loaded
    }

    pub fn new(filename: &str) -> (r: Self)
        ensures
            r.file() == filename@,
            !r.is_loaded(),
    {
        RealImage { filename: String::from_str(filename), loaded: false }
    }

    /// The line reported when this image is opened.
    pub fn opened(&self) -> (r: String)
        ensures
            r@ == opened_line(self.file()),
    {
        join2("Loading image: ", &self.filename)
    }

    fn load_from_disk(&self) -> (r: String)
        ensures
            r@ == "Loading "@ + self.file() + " from disk (expensive operation)"@,
    {
        join3("Loading ", &self.filename, " from disk (expensive operation)")
    }
}

impl Image for RealImage {
    open spec fn shown(&self) -> Seq<Seq<char>> {
        real_lines(self.file(), self.is_loaded())
    }

    fn display(&self) -> (r: Vec<String>) {
        let mut v: Vec<String> = Vec::new();
        if !self.loaded {
            v.push(String::from_str("First time access - loading image"));
        }
        v.push(self.load_from_disk());
        v.push(join2("Displaying ", &self.filename));
        assert(lines_of(v@) =~= real_lines(self.file(), self.is_loaded()));
        v
    }
}

/// Stands in for a [`RealImage`] and opens it only when shown.
pub struct ImageProxy {
    real_image: Option<RealImage>,
    filename: String,
}

impl ImageProxy {
    pub closed spec fn file(&self) -> Seq<char> {
        self.filename@
    }

    pub closed spec fn has_image(&self) -> bool {
        self.real_image is Some
    }

    pub fn new(filename: &str) -> (r: Self)
        ensures
            r.file() == filename@,
            !r.has_image(),
    {
        ImageProxy { real_image: None, filename: String::from_str(filename) }
    }

    /// The line reported when this proxy is made.
    pub fn created(&self) -> (r: String)
        ensures
            r@ == "Creating image proxy: "@ + self.file(),
    {
        join2("Creating image proxy: ", &self.filename)
    }
}

impl Image for ImageProxy {
    open spec fn shown(&self) -> Seq<Seq<char>> {
        let opened = seq![opened_line(self.file())] + real_lines(self.file(), false);
        if self.has_image() {
            opened
        } else {
            seq!["Lazy loading initiated"@] + opened
        }
    }

    /// Opens the image now and shows it.
    fn display(&self) -> (r: Vec<String>) {
        let mut v: Vec<String> = Vec::new();
        if self.real_image.is_none() {
            v.push(String::from_str("Lazy loading initiated"));
        }
        let real_image = RealImage::new(self.filename.as_str());
        v.push(real_image.opened());
        let mut shown = real_image.display();
        let ghost before = v@;
        let ghost tail = shown@;
        v.append(&mut shown);
        assert(lines_of(v@) =~= lines_of(before) + lines_of(tail));
        v
    }
}

} // verus!
