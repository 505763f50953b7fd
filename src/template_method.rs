use vstd::prelude::*;
use vstd::string::*;

verus! {

/// The rule printed above and below a pipeline run.
pub open spec fn rule() -> Seq<char> {
    "========================================"@
}

/// A data pipeline whose four steps each processor fills in; the order of the
/// steps is fixed by [`DataProcessor::process`].
pub trait DataProcessor {
    spec fn load_line(&self) -> Seq<char>;

    spec fn validate_line(&self) -> Seq<char>;

    spec fn transform_line(&self) -> Seq<char>;

    spec fn save_line(&self) -> Seq<char>;

    /// Runs the steps in order, framed by a header and a closing line, and
    /// returns every line reported.
    fn process(&self) -> (r: Vec<String>)
        ensures
            r@.map_values(|s: String| s@) == seq![
                "📊 Data Processing Pipeline"@,
                rule(),
                self.load_line(),
                self.validate_line(),
                self.transform_line(),
                self.save_line(),
                rule(),
                "✅ Processing complete!"@,
            ],
    {
        let mut v: Vec<String> = Vec::new();
        v.push(String::from_str("📊 Data Processing Pipeline"));
        v.push(String::from_str("========================================"));
        v.push(self.load_data());
        v.push(self.validate_data());
        v.push(self.transform_data());
        v.push(self.save_data());
        v.push(String::from_str("========================================"));
        v.push(String::from_str("✅ Processing complete!"));
        assert(v@.map_values(|s: String| s@) =~= seq![
            "📊 Data Processing Pipeline"@,
            rule(),
            self.load_line(),
            self.validate_line(),
            self.transform_line(),
            self.save_line(),
            rule(),
            "✅ Processing complete!"@,
        ]);
        v
    }

    fn load_data(&self) -> (r: String)
        ensures
            r@ == self.load_line(),
    ;

    fn validate_data(&self) -> (r: String)
        ensures
            r@ == self.validate_line(),
    ;

    fn transform_data(&self) -> (r: String)
        ensures
            r@ == self.transform_line(),
    ;

    fn save_data(&self) -> (r: String)
        ensures
            r@ == self.save_line(),
    ;
}

pub struct CSVProcessor;

impl DataProcessor for CSVProcessor {
    open spec fn load_line(&self) -> Seq<char> {
        "📁 Loading CSV data..."@
    }

    open spec fn validate_line(&self) -> Seq<char> {
        "✓ Validating CSV format..."@
    }

    open spec fn transform_line(&self) -> Seq<char> {
        "🔄 Transforming CSV data..."@
    }

    open spec fn save_line(&self) -> Seq<char> {
        "💾 Saving processed CSV data..."@
    }

    fn load_data(&self) -> (r: String) {
        String::from_str("📁 Loading CSV data...")
    }

    fn validate_data(&self) -> (r: String) {
        String::from_str("✓ Validating CSV format...")
    }

    fn transform_data(&self) -> (r: String) {
        String::from_str("🔄 Transforming CSV data...")
    }

    fn save_data(&self) -> (r: String) {
        String::from_str("💾 Saving processed CSV data...")
    }
}

pub struct JSONProcessor;

impl DataProcessor for JSONProcessor {
    open spec fn load_line(&self) -> Seq<char> {
        "📁 Loading JSON data..."@
    }

    open spec fn validate_line(&self) -> Seq<char> {
        "✓ Validating JSON format..."@
    }

    open spec fn transform_line(&self) -> Seq<char> {
        "🔄 Transforming JSON data..."@
    }

    open spec fn save_line(&self) -> Seq<char> {
        "💾 Saving processed JSON data..."@
    }

    fn load_data(&self) -> (r: String) {
        String::from_str("📁 Loading JSON data...")
    }

    fn validate_data(&self) -> (r: String) {
        String::from_str("✓ Validating JSON format...")
    }

    fn transform_data(&self) -> (r: String) {
        String::from_str("🔄 Transforming JSON data...")
    }

    fn save_data(&self) -> (r: String) {
        String::from_str("💾 Saving processed JSON data...")
    }
}

} // verus!
