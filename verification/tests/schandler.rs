use sciter::schandler::NativeHandler;

struct Handler {
    pub i: i32,
}

impl Drop for Handler {
    fn drop(&mut self) {
        println!("Handler::drop");
    }
}

#[test]
fn test1() {
    {
        println!("\ncreate");
        let h = Handler { i: 7 };
        let p = NativeHandler::from(h);

        println!("handler i {:?}", p.as_ref().i);
        println!("quit");
    }
    println!("done.");
}
