use typst_tokens::tokenize;

fn print_stream(text: &str) {
    let tokens = tokenize(text);
    let mut i = 0;
    while i + 4 < tokens.len() {
        println!(
            "{:?} {:?} {:?} {:?} {:?}",
            tokens[i],
            tokens[i + 1],
            tokens[i + 2],
            tokens[i + 3],
            tokens[i + 4]
        );
        i += 5;
    }
}

#[test]
fn test_highlighting() {
    print_stream("#let f(x) = y\n#let g(x) = z");

    print_stream("/* \n comment */");
}
